//! The protocol-level guarantees, stated and proved once over the
//! operations' own specifications: the two verification strategies agree,
//! tampering with a published statement is caught, a chunk can never be
//! applied twice, a transfer commits exactly when every chunk is proven, and
//! challenge derivation is deterministic.

use vstd::prelude::*;

use crate::buffer_assisted::compute_results_identity;
use crate::buffer_assisted::edwards_raw_identity;
use crate::buffer_assisted::header_authority;
use crate::buffer_assisted::header_input_buffer;
use crate::buffer_assisted::header_instruction_buffer;
use crate::buffer_assisted::header_instruction_num;
use crate::buffer_assisted::input_points_match;
use crate::buffer_assisted::input_scalars_match;
use crate::buffer_assisted::slow_proof_check;
use crate::buffer_assisted::DSL_INSTRUCTION_BYTES;
use crate::buffer_assisted::DSL_INSTRUCTION_BYTES_LEN;
use crate::buffer_assisted::DSL_INSTRUCTION_COUNT;
use crate::buffer_assisted::HEADER_SIZE;
use crate::curve::ristretto_ok;
use crate::curve::scalar_ok;
use crate::equality_proof::relation_a_identity;
use crate::equality_proof::relation_b_identity;
use crate::equality_proof::relation_c_identity;
use crate::equality_proof::statement_challenge;
use crate::equality_proof::statement_points;
use crate::equality_proof::statement_scalars;
use crate::equality_proof::NEG_ONE_BYTES;
use crate::error::TransferError;
use crate::pod::AccountId;
use crate::processor::apply_chunk_check;
use crate::processor::fini_transfer_check;
use crate::state::CipherKeyTransferBuffer;
use crate::state::Key;
use crate::state::PrivateMetadataAccount;
use crate::state::ALL_CHUNKS_MASK;
use crate::transcript::challenge_scalar_of;
use crate::transfer_proof::transfer_accepts;
use crate::transfer_proof::TransferData;

verus! {

/// The `i`th published 128-byte result of the compute buffer.
pub open spec fn result_region(compute: Seq<u8>, i: int) -> Seq<u8> {
    compute.subrange(HEADER_SIZE + 128 * i, HEADER_SIZE + 128 * i + 128)
}

/// Equivalence of the two verification strategies. Whenever the evaluation
/// buffers faithfully publish this transfer's computation — the header names
/// the caller and buffers and reports a completed run of the one fixed
/// program, the input buffer holds exactly the statement the program ran on
/// (so every statement point decompressed and the response scalars are
/// canonical), and each published result is the identity exactly when the
/// corresponding relation's multiscalar multiplication is — then the
/// buffer-assisted strategy accepts exactly when the direct strategy does.
pub proof fn lemma_strategy_equivalence(
    t: TransferData,
    authority: AccountId,
    instruction_buffer_key: AccountId,
    input_buffer_key: AccountId,
    instruction_data: Seq<u8>,
    input_data: Seq<u8>,
    compute_data: Seq<u8>,
)
    requires
        compute_data.len() >= HEADER_SIZE + 384,
        header_authority(compute_data) == authority.0@,
        header_instruction_buffer(compute_data) == instruction_buffer_key.0@,
        header_input_buffer(compute_data) == input_buffer_key.0@,
        header_instruction_num(compute_data) == DSL_INSTRUCTION_COUNT,
        instruction_data.len() == HEADER_SIZE + DSL_INSTRUCTION_BYTES_LEN,
        instruction_data.subrange(HEADER_SIZE as int, instruction_data.len() as int)
            == DSL_INSTRUCTION_BYTES@,
        input_data.len() >= HEADER_SIZE + 704,
        input_points_match(t, input_data),
        input_scalars_match(t, input_data),
        scalar_ok(t.proof.sh_1@),
        scalar_ok(t.proof.rh_2@),
        scalar_ok(NEG_ONE_BYTES@),
        forall|i: int|
            0 <= i < 11 ==> ristretto_ok(
                #[trigger] statement_points(
                    t.src_cipher_key_chunk_ct,
                    t.dst_cipher_key_chunk_ct,
                    t.transfer_public_keys.src_pubkey,
                    t.transfer_public_keys.dst_pubkey,
                    t.proof,
                )[i],
            ),
        edwards_raw_identity(result_region(compute_data, 0)) == relation_a_identity(
            t.transfer_public_keys.src_pubkey,
            t.proof,
            statement_challenge(
                t.src_cipher_key_chunk_ct,
                t.dst_cipher_key_chunk_ct,
                t.transfer_public_keys.src_pubkey,
                t.transfer_public_keys.dst_pubkey,
                t.proof,
            ),
        ),
        edwards_raw_identity(result_region(compute_data, 1)) == relation_b_identity(
            t.dst_cipher_key_chunk_ct,
            t.transfer_public_keys.dst_pubkey,
            t.proof,
            statement_challenge(
                t.src_cipher_key_chunk_ct,
                t.dst_cipher_key_chunk_ct,
                t.transfer_public_keys.src_pubkey,
                t.transfer_public_keys.dst_pubkey,
                t.proof,
            ),
        ),
        edwards_raw_identity(result_region(compute_data, 2)) == relation_c_identity(
            t.src_cipher_key_chunk_ct,
            t.dst_cipher_key_chunk_ct,
            t.proof,
            statement_challenge(
                t.src_cipher_key_chunk_ct,
                t.dst_cipher_key_chunk_ct,
                t.transfer_public_keys.src_pubkey,
                t.transfer_public_keys.dst_pubkey,
                t.proof,
            ),
        ),
    ensures
        (slow_proof_check(
            t,
            authority,
            instruction_buffer_key,
            input_buffer_key,
            instruction_data,
            input_data,
            compute_data,
        ) is None) <==> transfer_accepts(t),
{
    let ghost src_pk = t.transfer_public_keys.src_pubkey;
    let ghost dst_pk = t.transfer_public_keys.dst_pubkey;
    let ghost src_ct = t.src_cipher_key_chunk_ct;
    let ghost dst_ct = t.dst_cipher_key_chunk_ct;
    let ghost pts = statement_points(src_ct, dst_ct, src_pk, dst_pk, t.proof);
    assert(ristretto_ok(pts[0]));
    assert(ristretto_ok(pts[1]));
    assert(ristretto_ok(pts[2]));
    assert(ristretto_ok(pts[3]));
    assert(ristretto_ok(pts[4]));
    assert(ristretto_ok(pts[5]));
    assert(ristretto_ok(pts[6]));
    assert(ristretto_ok(pts[7]));
    assert(ristretto_ok(pts[8]));
    assert(ristretto_ok(pts[9]));
    assert(ristretto_ok(pts[10]));
    if compute_results_identity(compute_data) {
        assert(edwards_raw_identity(result_region(compute_data, 0)));
        assert(edwards_raw_identity(result_region(compute_data, 1)));
        assert(edwards_raw_identity(result_region(compute_data, 2)));
        assert(transfer_accepts(t));
    }
    if transfer_accepts(t) {
        assert forall|i: int| 0 <= i < 3 implies edwards_raw_identity(
            #[trigger] compute_data.subrange(HEADER_SIZE + 128 * i, HEADER_SIZE + 128 * i + 128),
        ) by {
            assert(compute_data.subrange(HEADER_SIZE + 128 * i, HEADER_SIZE + 128 * i + 128)
                == result_region(compute_data, i));
            if i == 0 {
                assert(edwards_raw_identity(result_region(compute_data, 0)));
            } else if i == 1 {
                assert(edwards_raw_identity(result_region(compute_data, 1)));
            } else {
                assert(edwards_raw_identity(result_region(compute_data, 2)));
            }
        }
        assert(compute_results_identity(compute_data));
    }
}

/// Tampering is caught: flipping any single byte of any of the eleven
/// published statement points or eleven published response scalars of an
/// input buffer that matched the statement makes the buffer-assisted check
/// fail, whatever the other buffers hold.
pub proof fn lemma_statement_byte_flip_rejected(
    t: TransferData,
    authority: AccountId,
    instruction_buffer_key: AccountId,
    input_buffer_key: AccountId,
    instruction_data: Seq<u8>,
    input_data: Seq<u8>,
    tampered: Seq<u8>,
    compute_data: Seq<u8>,
    region: int,
    offset: int,
)
    requires
        input_data.len() >= HEADER_SIZE + 704,
        input_points_match(t, input_data),
        input_scalars_match(t, input_data),
        0 <= region < 22,
        0 <= offset < 32,
        tampered.len() == input_data.len(),
        tampered[HEADER_SIZE + 32 * region + offset] != input_data[HEADER_SIZE + 32 * region
            + offset],
        forall|k: int|
            0 <= k < tampered.len() && k != HEADER_SIZE + 32 * region + offset ==> tampered[k]
                == input_data[k],
    ensures
        slow_proof_check(
            t,
            authority,
            instruction_buffer_key,
            input_buffer_key,
            instruction_data,
            tampered,
            compute_data,
        ) is Some,
{
    if region < 11 {
        let base = HEADER_SIZE + 32 * region;
        assert(tampered.subrange(base, base + 32)[offset] != input_data.subrange(
            base,
            base + 32,
        )[offset]);
        assert(tampered.subrange(base, base + 32) != statement_points(
            t.src_cipher_key_chunk_ct,
            t.dst_cipher_key_chunk_ct,
            t.transfer_public_keys.src_pubkey,
            t.transfer_public_keys.dst_pubkey,
            t.proof,
        )[region]);
        assert(!input_points_match(t, tampered));
    } else {
        let s = region - 11;
        let base = HEADER_SIZE + 352 + 32 * s;
        assert(tampered.subrange(base, base + 32)[offset] != input_data.subrange(
            base,
            base + 32,
        )[offset]);
        assert(tampered.subrange(base, base + 32) != statement_scalars(
            t.proof,
            statement_challenge(
                t.src_cipher_key_chunk_ct,
                t.dst_cipher_key_chunk_ct,
                t.transfer_public_keys.src_pubkey,
                t.transfer_public_keys.dst_pubkey,
                t.proof,
            ),
        )[s]);
        assert(!input_scalars_match(t, tampered));
    }
}

/// No double apply: after one apply-chunk request for an index succeeds,
/// any second signed apply-chunk request for the same buffer and the same
/// index fails with the chunk-already-set error, whatever record content or
/// proof it submits — even a fresh valid one.
pub proof fn lemma_no_double_apply(
    authority_is_signer: bool,
    authority: AccountId,
    private_metadata_key: AccountId,
    record: PrivateMetadataAccount,
    record2: PrivateMetadataAccount,
    before: CipherKeyTransferBuffer,
    after: CipherKeyTransferBuffer,
    chunk_idx: u8,
    t: TransferData,
    t2: TransferData,
)
    requires
        apply_chunk_check(
            authority_is_signer,
            authority,
            private_metadata_key,
            record,
            before,
            chunk_idx,
            t,
        ) is None,
        after.key == before.key,
        after.authority == before.authority,
        after.private_metadata_key == before.private_metadata_key,
        after.updated == before.updated | (1u8 << chunk_idx),
    ensures
        apply_chunk_check(
            authority_is_signer,
            authority,
            private_metadata_key,
            record2,
            after,
            chunk_idx,
            t2,
        ) == Some(TransferError::ChunkAlreadySet),
{
    let u = before.updated;
    let i = chunk_idx;
    assert(i < 4);
    assert((u | (1u8 << i)) & (1u8 << i) != 0) by (bit_vector)
        requires
            i < 8u8,
    ;
    assert(after.chunk_set(chunk_idx));
}

/// Finalize gating: for a signed request whose authority, buffer and record
/// bindings all match and whose fund return cannot overflow, finalize
/// succeeds exactly when every one of the chunk bits is set, and fails with
/// the not-all-chunks-set error whenever any bit is unset.
pub proof fn lemma_finalize_gating(
    authority: AccountId,
    private_metadata_key: AccountId,
    buffer: CipherKeyTransferBuffer,
    record: PrivateMetadataAccount,
    authority_lamports: u64,
    buffer_lamports: u64,
)
    requires
        buffer.key == Key::CipherKeyTransferBufferV1,
        buffer.authority.0@ == authority.0@,
        buffer.private_metadata_key.0@ == private_metadata_key.0@,
        record.key == Key::PrivateMetadataAccountV1,
        authority_lamports + buffer_lamports <= u64::MAX,
    ensures
        (fini_transfer_check(
            true,
            authority,
            private_metadata_key,
            buffer,
            record,
            authority_lamports,
            buffer_lamports,
        ) is None) <==> (forall|i: u8| i < 4 ==> #[trigger] buffer.chunk_set(i)),
        !(forall|i: u8| i < 4 ==> #[trigger] buffer.chunk_set(i)) ==> fini_transfer_check(
            true,
            authority,
            private_metadata_key,
            buffer,
            record,
            authority_lamports,
            buffer_lamports,
        ) == Some(TransferError::NotAllChunksSet),
{
    let u = buffer.updated;
    assert((u & 15 == 15) <==> (u & (1u8 << 0u8) != 0 && u & (1u8 << 1u8) != 0 && u & (1u8 << 2u8)
        != 0 && u & (1u8 << 3u8) != 0)) by (bit_vector);
    if u & ALL_CHUNKS_MASK == ALL_CHUNKS_MASK {
        assert forall|i: u8| i < 4 implies #[trigger] buffer.chunk_set(i) by {
            if i == 0 {
                assert(u & (1u8 << 0u8) != 0);
            } else if i == 1 {
                assert(u & (1u8 << 1u8) != 0);
            } else if i == 2 {
                assert(u & (1u8 << 2u8) != 0);
            } else {
                assert(u & (1u8 << 3u8) != 0);
            }
        }
    } else {
        assert(!(u & (1u8 << 0u8) != 0 && u & (1u8 << 1u8) != 0 && u & (1u8 << 2u8) != 0 && u & (
        1u8 << 3u8) != 0));
        if u & (1u8 << 0u8) == 0 {
            assert(!buffer.chunk_set(0u8));
        } else if u & (1u8 << 1u8) == 0 {
            assert(!buffer.chunk_set(1u8));
        } else if u & (1u8 << 2u8) == 0 {
            assert(!buffer.chunk_set(2u8));
        } else {
            assert(!buffer.chunk_set(3u8));
        }
    }
}

/// Bits of the chunk bitmask only ever transition from clear to set:
/// applying any chunk preserves every bit already set, so a proven chunk
/// can never become unproven again.
pub proof fn lemma_bitmask_monotone(
    before: CipherKeyTransferBuffer,
    after: CipherKeyTransferBuffer,
    chunk_idx: u8,
    i: u8,
)
    requires
        chunk_idx < 8,
        i < 8,
        after.updated == before.updated | (1u8 << chunk_idx),
        before.chunk_set(i),
    ensures
        after.chunk_set(i),
{
    let u = before.updated;
    let j = chunk_idx;
    assert(u & (1u8 << i) != 0 ==> (u | (1u8 << j)) & (1u8 << i) != 0) by (bit_vector)
        requires
            i < 8u8,
            j < 8u8,
    ;
}

/// Determinism of the Fiat-Shamir transform: the challenge scalar is a pure
/// function of the ordered absorbed byte history and the challenge label;
/// two transcripts with equal histories yield equal challenges.
pub proof fn lemma_challenge_deterministic(h1: Seq<u8>, h2: Seq<u8>, label: Seq<u8>)
    requires
        h1 == h2,
    ensures
        challenge_scalar_of(h1, label) == challenge_scalar_of(h2, label),
{
}

} // verus!
