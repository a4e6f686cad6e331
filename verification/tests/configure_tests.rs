//! Tests of the configuration step and of the account-owner check.

use private_metadata::error::TransferError;
use private_metadata::pod::AccountId;
use private_metadata::pod::ElGamalCiphertext;
use private_metadata::pod::ElGamalPubkey;
use private_metadata::processor::process_configure_metadata;
use private_metadata::processor::validate_account_owner;
use private_metadata::processor::ConfigureEnv;
use private_metadata::state::Key;
use private_metadata::state::PrivateMetadataAccount;
use private_metadata::state::CIPHER_KEY_CHUNKS;
use private_metadata::state::URI_LEN;

fn account(tag: u8) -> AccountId {
    let mut b = [0u8; 32];
    b[0] = tag;
    AccountId(b)
}

fn good_env() -> ConfigureEnv {
    ConfigureEnv {
        payer_is_signer: true,
        mint_owner: account(1),
        token_program_id: account(1),
        metadata_owner: account(2),
        metadata_program_id: account(2),
        derived_metadata_key: account(3),
        metadata_key: account(3),
        metadata_update_authority: account(4),
        update_authority_key: account(4),
        metadata_is_mutable: true,
        derived_private_metadata_key: account(5),
        private_metadata_key: account(5),
    }
}

fn blank_record() -> PrivateMetadataAccount {
    PrivateMetadataAccount {
        key: Key::Uninitialized,
        mint: account(0),
        elgamal_pk: ElGamalPubkey([0u8; 32]),
        encrypted_cipher_key: vec![
            ElGamalCiphertext { commitment: [0u8; 32], handle: [0u8; 32] };
            CIPHER_KEY_CHUNKS
        ],
        uri: vec![0u8; URI_LEN],
    }
}

#[test]
fn configure_writes_record() {
    let env = good_env();
    let mut record = blank_record();
    let chunks = vec![
        ElGamalCiphertext { commitment: [7u8; 32], handle: [8u8; 32] };
        CIPHER_KEY_CHUNKS
    ];
    let uri = vec![9u8; URI_LEN];
    let r = process_configure_metadata(
        &env,
        &account(9),
        &ElGamalPubkey([6u8; 32]),
        &chunks,
        &uri,
        &mut record,
    );
    assert_eq!(r, Ok(()));
    assert_eq!(record.key, Key::PrivateMetadataAccountV1);
    assert_eq!(record.mint.0, account(9).0);
    assert_eq!(record.elgamal_pk.0, [6u8; 32]);
    assert_eq!(record.encrypted_cipher_key[3].commitment, [7u8; 32]);
    assert_eq!(record.uri, uri);
}

#[test]
fn configure_error_cascade() {
    let chunks = vec![
        ElGamalCiphertext { commitment: [0u8; 32], handle: [0u8; 32] };
        CIPHER_KEY_CHUNKS
    ];
    let uri = vec![0u8; URI_LEN];
    let cases: [(fn(&mut ConfigureEnv), TransferError); 6] = [
        (|e| e.payer_is_signer = false, TransferError::MissingSignature),
        (|e| e.mint_owner = account(99), TransferError::InvalidAccountOwner),
        (|e| e.metadata_key = account(99), TransferError::InvalidMetadataKey),
        (|e| e.update_authority_key = account(99), TransferError::InvalidUpdateAuthority),
        (|e| e.metadata_is_mutable = false, TransferError::MetadataIsImmutable),
        (|e| e.private_metadata_key = account(99), TransferError::InvalidPrivateMetadataKey),
    ];
    for (mutate, expected) in cases {
        let mut env = good_env();
        mutate(&mut env);
        let mut record = blank_record();
        let r = process_configure_metadata(
            &env,
            &account(9),
            &ElGamalPubkey([6u8; 32]),
            &chunks,
            &uri,
            &mut record,
        );
        assert_eq!(r, Err(expected));
        assert_eq!(record.key, Key::Uninitialized);
    }
}

#[test]
fn reconfigure_rejected() {
    let env = good_env();
    let mut record = blank_record();
    let chunks = vec![
        ElGamalCiphertext { commitment: [7u8; 32], handle: [8u8; 32] };
        CIPHER_KEY_CHUNKS
    ];
    let uri = vec![9u8; URI_LEN];
    let pk1 = ElGamalPubkey([6u8; 32]);
    assert_eq!(
        process_configure_metadata(&env, &account(9), &pk1, &chunks, &uri, &mut record),
        Ok(())
    );
    // the record now carries its kind tag; configuring again is refused and
    // the existing record stays as it is
    let pk2 = ElGamalPubkey([5u8; 32]);
    assert_eq!(
        process_configure_metadata(&env, &account(9), &pk2, &chunks, &uri, &mut record),
        Err(TransferError::WrongRecordKind)
    );
    assert_eq!(record.elgamal_pk.0, [6u8; 32]);
}

#[test]
fn account_owner_check() {
    assert_eq!(validate_account_owner(&account(1), &account(1)), Ok(()));
    assert_eq!(
        validate_account_owner(&account(1), &account(2)),
        Err(TransferError::InvalidAccountOwner)
    );
}
