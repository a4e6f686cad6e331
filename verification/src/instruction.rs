//! Wire decoding of requests: a one-byte instruction tag followed by a
//! fixed-width payload. Every parser is total, checks the exact expected
//! length, and states byte for byte where each field comes from.

use vstd::prelude::*;

use crate::equality_proof::equality_proof_from_bytes;
use crate::equality_proof::copy32;
use crate::error::TransferError;
use crate::pod::ElGamalCiphertext;
use crate::pod::ElGamalPubkey;
use crate::state::CIPHER_KEY_CHUNKS;
use crate::state::URI_LEN;
use crate::transfer_proof::TransferData;
use crate::transfer_proof::TransferPubkeys;

verus! {

/// The five requests the core serves.
#[derive(Clone, Copy, Debug, PartialEq, Eq, Structural)]
pub enum PrivateMetadataInstruction {
    ConfigureMetadata,
    InitTransfer,
    FiniTransfer,
    TransferChunk,
    TransferChunkSlow,
}

/// Total byte length of a configure-metadata request: tag, destination key,
/// chunk array, locator.
pub const CONFIGURE_METADATA_DATA_LEN: usize = 389;

/// Total byte length of an open-buffer request: tag and destination key.
pub const INIT_TRANSFER_DATA_LEN: usize = 33;

/// Total byte length of an apply-chunk request, direct or buffer-assisted:
/// tag, chunk index, two ciphertext chunks, two keys, and the proof.
pub const TRANSFER_CHUNK_DATA_LEN: usize = 354;

/// The instruction tag named by a request's first byte, if any.
pub open spec fn instruction_kind_of(b: Seq<u8>) -> Option<PrivateMetadataInstruction> {
    if b.len() < 1 {
        None
    } else if b[0] == 0 {
        Some(PrivateMetadataInstruction::ConfigureMetadata)
    } else if b[0] == 1 {
        Some(PrivateMetadataInstruction::InitTransfer)
    } else if b[0] == 2 {
        Some(PrivateMetadataInstruction::FiniTransfer)
    } else if b[0] == 3 {
        Some(PrivateMetadataInstruction::TransferChunk)
    } else if b[0] == 4 {
        Some(PrivateMetadataInstruction::TransferChunkSlow)
    } else {
        None
    }
}

/// Reads a request's instruction tag.
pub fn decode_instruction_kind(b: &[u8]) -> (r: Result<PrivateMetadataInstruction, TransferError>)
    ensures
        match r {
            Ok(k) => instruction_kind_of(b@) == Some(k),
            Err(e) => {
                &&& e == TransferError::InvalidInstructionData
                &&& instruction_kind_of(b@) is None
            },
        },
{
    if b.len() < 1 {
        return Err(TransferError::InvalidInstructionData);
    }
    match b[0] {
        0 => Ok(PrivateMetadataInstruction::ConfigureMetadata),
        1 => Ok(PrivateMetadataInstruction::InitTransfer),
        2 => Ok(PrivateMetadataInstruction::FiniTransfer),
        3 => Ok(PrivateMetadataInstruction::TransferChunk),
        4 => Ok(PrivateMetadataInstruction::TransferChunkSlow),
        _ => Err(TransferError::InvalidInstructionData),
    }
}

/// Reads a 64-byte ciphertext chunk at `off`: commitment, then handle.
pub fn parse_ciphertext(b: &[u8], off: usize) -> (r: ElGamalCiphertext)
    requires
        off + 64 <= b@.len(),
    ensures
        r.commitment@ == b@.subrange(off as int, off as int + 32),
        r.handle@ == b@.subrange(off as int + 32, off as int + 64),
{
    let n: usize = b.len();
    proof {
        assert(off + 32 <= n);
    }
    let commitment = copy32(b, off);
    let handle = copy32(b, off + 32);
    ElGamalCiphertext { commitment, handle }
}

/// Decodes an open-buffer request: the destination encryption key.
pub fn decode_init_transfer_data(b: &[u8]) -> (r: Result<ElGamalPubkey, TransferError>)
    ensures
        match r {
            Ok(pk) => {
                &&& b@.len() == INIT_TRANSFER_DATA_LEN
                &&& instruction_kind_of(b@) == Some(PrivateMetadataInstruction::InitTransfer)
                &&& pk.0@ == b@.subrange(1, 33)
            },
            Err(e) => {
                &&& e == TransferError::InvalidInstructionData
                &&& !(b@.len() == INIT_TRANSFER_DATA_LEN && instruction_kind_of(b@) == Some(
                    PrivateMetadataInstruction::InitTransfer,
                ))
            },
        },
{
    if b.len() != INIT_TRANSFER_DATA_LEN {
        return Err(TransferError::InvalidInstructionData);
    }
    if b[0] != 1 {
        return Err(TransferError::InvalidInstructionData);
    }
    Ok(ElGamalPubkey(copy32(b, 1)))
}

/// A decoded configure-metadata request: the initial owner key, the initial
/// encrypted secret, and the locator of the public metadata portion.
pub struct ConfigureMetadataData {
    pub elgamal_pk: ElGamalPubkey,
    pub encrypted_cipher_key: Vec<ElGamalCiphertext>,
    pub uri: Vec<u8>,
}

impl ConfigureMetadataData {
    /// Structural well-formedness: fixed chunk count and locator width.
    pub open spec fn wf(self) -> bool {
        &&& self.encrypted_cipher_key@.len() == CIPHER_KEY_CHUNKS
        &&& self.uri@.len() == URI_LEN
    }
}

/// Decodes a configure-metadata request: the destination key at offset 1,
/// the four chunks from offset 33, the locator from offset 289.
pub fn decode_configure_metadata_data(b: &[u8]) -> (r: Result<
    ConfigureMetadataData,
    TransferError,
>)
    ensures
        match r {
            Ok(d) => {
                &&& b@.len() == CONFIGURE_METADATA_DATA_LEN
                &&& instruction_kind_of(b@) == Some(PrivateMetadataInstruction::ConfigureMetadata)
                &&& d.wf()
                &&& d.elgamal_pk.0@ == b@.subrange(1, 33)
                &&& forall|i: int|
                    0 <= i < CIPHER_KEY_CHUNKS ==> (#[trigger] d.encrypted_cipher_key@[i]).wire()
                        == b@.subrange(33 + 64 * i, 33 + 64 * i + 64)
                &&& d.uri@ == b@.subrange(289, 389)
            },
            Err(e) => {
                &&& e == TransferError::InvalidInstructionData
                &&& !(b@.len() == CONFIGURE_METADATA_DATA_LEN && instruction_kind_of(b@) == Some(
                    PrivateMetadataInstruction::ConfigureMetadata,
                ))
            },
        },
{
    if b.len() != CONFIGURE_METADATA_DATA_LEN {
        return Err(TransferError::InvalidInstructionData);
    }
    if b[0] != 0 {
        return Err(TransferError::InvalidInstructionData);
    }
    let elgamal_pk = ElGamalPubkey(copy32(b, 1));
    let mut encrypted_cipher_key: Vec<ElGamalCiphertext> = Vec::new();
    let mut i: usize = 0;
    while i < CIPHER_KEY_CHUNKS
        invariant
            i <= CIPHER_KEY_CHUNKS,
            b@.len() == CONFIGURE_METADATA_DATA_LEN,
            encrypted_cipher_key@.len() == i,
            forall|j: int|
                0 <= j < i ==> (#[trigger] encrypted_cipher_key@[j]).wire() == b@.subrange(
                    33 + 64 * j,
                    33 + 64 * j + 64,
                ),
        decreases CIPHER_KEY_CHUNKS - i,
    {
        let ct = parse_ciphertext(b, 33 + 64 * i);
        proof {
            assert(ct.wire() =~= b@.subrange(33 + 64 * i, 33 + 64 * i + 64));
        }
        encrypted_cipher_key.push(ct);
        i += 1;
    }
    let mut uri: Vec<u8> = Vec::new();
    let mut i: usize = 0;
    while i < URI_LEN
        invariant
            i <= URI_LEN,
            b@.len() == CONFIGURE_METADATA_DATA_LEN,
            uri@ == b@.subrange(289, 289 + i as int),
        decreases URI_LEN - i,
    {
        uri.push(b[289 + i]);
        proof {
            assert(b@.subrange(289, 289 + (i + 1) as int) =~= b@.subrange(289, 289 + i as int).push(
                b@[289 + i],
            ));
        }
        i += 1;
    }
    Ok(ConfigureMetadataData { elgamal_pk, encrypted_cipher_key, uri })
}

/// Whether the payload bytes of an apply-chunk request carry canonical
/// response scalars, which is the one content check decoding makes.
pub open spec fn transfer_chunk_scalars_ok(b: Seq<u8>) -> bool {
    &&& crate::curve::scalar_ok(b.subrange(290, 322))
    &&& crate::curve::scalar_ok(b.subrange(322, 354))
}

/// Decodes an apply-chunk request: the chunk index at offset 1, the source
/// and destination chunks, the two keys, and the equality proof, whose
/// response scalars must be canonical.
pub fn decode_transfer_chunk_data(b: &[u8], slow: bool) -> (r: Result<
    (u8, TransferData),
    TransferError,
>)
    ensures
        match r {
            Ok((idx, t)) => {
                &&& b@.len() == TRANSFER_CHUNK_DATA_LEN
                &&& instruction_kind_of(b@) == Some(
                    if slow {
                        PrivateMetadataInstruction::TransferChunkSlow
                    } else {
                        PrivateMetadataInstruction::TransferChunk
                    },
                )
                &&& idx == b@[1]
                &&& t.src_cipher_key_chunk_ct.wire() == b@.subrange(2, 66)
                &&& t.dst_cipher_key_chunk_ct.wire() == b@.subrange(66, 130)
                &&& t.transfer_public_keys.src_pubkey.0@ == b@.subrange(130, 162)
                &&& t.transfer_public_keys.dst_pubkey.0@ == b@.subrange(162, 194)
                &&& t.proof.wire() == b@.subrange(194, 354)
                &&& transfer_chunk_scalars_ok(b@)
            },
            Err(e) => {
                &&& (e == TransferError::InvalidInstructionData || e
                    == TransferError::ProofVerificationError)
                &&& (e == TransferError::InvalidInstructionData <==> !(b@.len()
                    == TRANSFER_CHUNK_DATA_LEN && instruction_kind_of(b@) == Some(
                    if slow {
                        PrivateMetadataInstruction::TransferChunkSlow
                    } else {
                        PrivateMetadataInstruction::TransferChunk
                    },
                )))
                &&& (e == TransferError::ProofVerificationError ==> !transfer_chunk_scalars_ok(b@))
            },
        },
{
    if b.len() != TRANSFER_CHUNK_DATA_LEN {
        return Err(TransferError::InvalidInstructionData);
    }
    let expected_tag: u8 = if slow {
        4
    } else {
        3
    };
    if b[0] != expected_tag {
        return Err(TransferError::InvalidInstructionData);
    }
    let chunk_idx = b[1];
    let src_ct = parse_ciphertext(b, 2);
    let dst_ct = parse_ciphertext(b, 66);
    let src_pubkey = ElGamalPubkey(copy32(b, 130));
    let dst_pubkey = ElGamalPubkey(copy32(b, 162));
    let mut proof_bytes: [u8; 160] = [0; 160];
    let mut i: usize = 0;
    while i < 160
        invariant
            i <= 160,
            b@.len() == TRANSFER_CHUNK_DATA_LEN,
            proof_bytes@.len() == 160,
            forall|j: int| 0 <= j < i ==> proof_bytes@[j] == b@[194 + j],
        decreases 160 - i,
    {
        proof_bytes[i] = b[194 + i];
        i += 1;
    }
    proof {
        assert(proof_bytes@ =~= b@.subrange(194, 354));
        assert(proof_bytes@.subrange(96, 128) =~= b@.subrange(290, 322));
        assert(proof_bytes@.subrange(128, 160) =~= b@.subrange(322, 354));
    }
    let proof = match equality_proof_from_bytes(&proof_bytes) {
        Ok(p) => p,
        Err(e) => { return Err(e) },
    };
    proof {
        assert(proof.wire() =~= proof_bytes@);
    }
    let t = TransferData {
        src_cipher_key_chunk_ct: src_ct,
        dst_cipher_key_chunk_ct: dst_ct,
        transfer_public_keys: TransferPubkeys { src_pubkey, dst_pubkey },
        proof,
    };
    proof {
        assert(t.src_cipher_key_chunk_ct.wire() =~= b@.subrange(2, 66));
        assert(t.dst_cipher_key_chunk_ct.wire() =~= b@.subrange(66, 130));
    }
    Ok((chunk_idx, t))
}

} // verus!
