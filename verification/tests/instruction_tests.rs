//! Tests of the wire decoders: exact field placement, exact lengths, and
//! the rejection of malformed or non-canonical requests.

use private_metadata::equality_proof::EQUALITY_PROOF_LEN;
use private_metadata::equality_proof::NEG_ONE_BYTES;
use private_metadata::error::TransferError;
use private_metadata::instruction::decode_configure_metadata_data;
use private_metadata::instruction::decode_init_transfer_data;
use private_metadata::instruction::decode_instruction_kind;
use private_metadata::instruction::decode_transfer_chunk_data;
use private_metadata::instruction::PrivateMetadataInstruction;
use private_metadata::instruction::CONFIGURE_METADATA_DATA_LEN;
use private_metadata::instruction::INIT_TRANSFER_DATA_LEN;
use private_metadata::instruction::TRANSFER_CHUNK_DATA_LEN;

#[test]
fn request_lengths_are_consistent() {
    assert_eq!(TRANSFER_CHUNK_DATA_LEN, 2 + 64 + 64 + 32 + 32 + EQUALITY_PROOF_LEN);
    assert_eq!(CONFIGURE_METADATA_DATA_LEN, 1 + 32 + 4 * 64 + 100);
    assert_eq!(INIT_TRANSFER_DATA_LEN, 1 + 32);
}

#[test]
fn instruction_kinds_decode() {
    assert_eq!(
        decode_instruction_kind(&[0]),
        Ok(PrivateMetadataInstruction::ConfigureMetadata)
    );
    assert_eq!(decode_instruction_kind(&[1]), Ok(PrivateMetadataInstruction::InitTransfer));
    assert_eq!(decode_instruction_kind(&[2]), Ok(PrivateMetadataInstruction::FiniTransfer));
    assert_eq!(decode_instruction_kind(&[3]), Ok(PrivateMetadataInstruction::TransferChunk));
    assert_eq!(
        decode_instruction_kind(&[4]),
        Ok(PrivateMetadataInstruction::TransferChunkSlow)
    );
    assert_eq!(decode_instruction_kind(&[5]), Err(TransferError::InvalidInstructionData));
    assert_eq!(decode_instruction_kind(&[]), Err(TransferError::InvalidInstructionData));
}

#[test]
fn init_transfer_data_decodes() {
    let mut b = vec![0u8; INIT_TRANSFER_DATA_LEN];
    b[0] = 1;
    for i in 0..32 {
        b[1 + i] = i as u8;
    }
    let pk = decode_init_transfer_data(&b).unwrap();
    assert_eq!(pk.0[0], 0);
    assert_eq!(pk.0[31], 31);
    assert!(matches!(
        decode_init_transfer_data(&b[..32]),
        Err(TransferError::InvalidInstructionData)
    ));
    b[0] = 2;
    assert!(matches!(
        decode_init_transfer_data(&b),
        Err(TransferError::InvalidInstructionData)
    ));
}

#[test]
fn configure_metadata_data_decodes() {
    let mut b = vec![0u8; CONFIGURE_METADATA_DATA_LEN];
    b[0] = 0;
    b[1] = 0xAA;  // first byte of the destination key
    b[33] = 0xBB;  // first byte of chunk 0's commitment
    b[33 + 64] = 0xCC;  // first byte of chunk 1's commitment
    b[33 + 32] = 0xDD;  // first byte of chunk 0's handle
    b[289] = 0xEE;  // first byte of the locator
    b[388] = 0xFF;  // last byte of the locator
    let d = decode_configure_metadata_data(&b).unwrap();
    assert_eq!(d.elgamal_pk.0[0], 0xAA);
    assert_eq!(d.encrypted_cipher_key.len(), 4);
    assert_eq!(d.encrypted_cipher_key[0].commitment[0], 0xBB);
    assert_eq!(d.encrypted_cipher_key[0].handle[0], 0xDD);
    assert_eq!(d.encrypted_cipher_key[1].commitment[0], 0xCC);
    assert_eq!(d.uri.len(), 100);
    assert_eq!(d.uri[0], 0xEE);
    assert_eq!(d.uri[99], 0xFF);

    assert!(matches!(
        decode_configure_metadata_data(&b[..100]),
        Err(TransferError::InvalidInstructionData)
    ));
}

#[test]
fn transfer_chunk_data_decodes() {
    let mut b = vec![0u8; TRANSFER_CHUNK_DATA_LEN];
    b[0] = 3;
    b[1] = 2;  // chunk index
    b[2] = 0x11;  // source commitment
    b[66] = 0x22;  // destination commitment
    b[130] = 0x33;  // source pubkey
    b[162] = 0x44;  // destination pubkey
    b[194] = 0x55;  // first witness
    // canonical response scalars
    b[290..322].copy_from_slice(&NEG_ONE_BYTES);
    b[322..354].copy_from_slice(&NEG_ONE_BYTES);
    let (idx, t) = decode_transfer_chunk_data(&b, false).unwrap();
    assert_eq!(idx, 2);
    assert_eq!(t.src_cipher_key_chunk_ct.commitment[0], 0x11);
    assert_eq!(t.dst_cipher_key_chunk_ct.commitment[0], 0x22);
    assert_eq!(t.transfer_public_keys.src_pubkey.0[0], 0x33);
    assert_eq!(t.transfer_public_keys.dst_pubkey.0[0], 0x44);
    assert_eq!(t.proof.y_0[0], 0x55);
    assert_eq!(t.proof.sh_1, NEG_ONE_BYTES);
    assert_eq!(t.proof.rh_2, NEG_ONE_BYTES);

    // the slow decoder wants the slow tag
    assert!(matches!(
        decode_transfer_chunk_data(&b, true),
        Err(TransferError::InvalidInstructionData)
    ));
    b[0] = 4;
    assert!(decode_transfer_chunk_data(&b, true).is_ok());

    // a non-canonical response scalar is rejected, not reduced
    b[290..322].copy_from_slice(&[0xFF; 32]);
    assert!(matches!(
        decode_transfer_chunk_data(&b, true),
        Err(TransferError::ProofVerificationError)
    ));
}
