//! The lifecycle operations of a chunked transfer: configuring the durable
//! record, opening a transfer buffer, applying one proven chunk, and
//! finalizing the transfer into the record.
//!
//! Every operation decides over plain values handed in by the surrounding
//! ledger plumbing, checks all of its preconditions before touching any
//! state, and reports exactly one error for the first failing check.

use vstd::prelude::*;

use crate::buffer_assisted::slow_proof_check;
use crate::buffer_assisted::verify_transfer_slow;
use crate::error::TransferError;
use crate::pod::account_eq;
use crate::pod::ciphertext_eq;
use crate::pod::pubkey_eq;
use crate::pod::AccountId;
use crate::pod::ElGamalCiphertext;
use crate::pod::ElGamalPubkey;
use crate::state::CipherKeyTransferBuffer;
use crate::state::Key;
use crate::state::PrivateMetadataAccount;
use crate::state::ALL_CHUNKS_MASK;
use crate::state::CIPHER_KEY_CHUNKS;
use crate::state::URI_LEN;
use crate::transfer_proof::transfer_accepts;
use crate::transfer_proof::verify_transfer;
use crate::transfer_proof::TransferData;

verus! {

/// Packed byte size of a transfer buffer record: tag, authority, record
/// reference, destination key, bitmask, and the chunk array.
pub const TRANSFER_BUFFER_PACKED_LEN: usize = 354;

/// Packed byte size of a private-metadata record: tag, asset reference,
/// owner key, chunk array, and locator.
pub const PRIVATE_METADATA_PACKED_LEN: usize = 421;

/// What the configuration step reads from a token account.
#[derive(Clone, Copy, Debug)]
pub struct TokenAccountView {
    pub mint: AccountId,
    pub owner: AccountId,
    pub amount: u64,
}

/// Checks that an account is owned by the expected program.
pub fn validate_account_owner(account_owner: &AccountId, owner: &AccountId) -> (r: Result<
    (),
    TransferError,
>)
    ensures
        r is Ok <==> account_owner.0@ == owner.0@,
        r is Err ==> r == Result::<(), TransferError>::Err(TransferError::InvalidAccountOwner),
{
    if account_eq(account_owner, owner) {
        Ok(())
    } else {
        Err(TransferError::InvalidAccountOwner)
    }
}

/// Inputs of the configuration step that the surrounding ledger resolves:
/// who signed, who owns the referenced accounts, the derived and provided
/// record addresses, and what the asset's metadata says.
#[derive(Clone, Copy, Debug)]
pub struct ConfigureEnv {
    pub payer_is_signer: bool,
    pub mint_owner: AccountId,
    pub token_program_id: AccountId,
    pub metadata_owner: AccountId,
    pub metadata_program_id: AccountId,
    pub derived_metadata_key: AccountId,
    pub metadata_key: AccountId,
    pub metadata_update_authority: AccountId,
    pub update_authority_key: AccountId,
    pub metadata_is_mutable: bool,
    pub derived_private_metadata_key: AccountId,
    pub private_metadata_key: AccountId,
}

/// The first error of the configuration checks, or none. The record's kind
/// tag is checked like every other read: a record is configured exactly
/// once, and one that already carries a kind is never rewritten.
pub open spec fn configure_check(env: ConfigureEnv, record: PrivateMetadataAccount) -> Option<
    TransferError,
> {
    if !env.payer_is_signer {
        Some(TransferError::MissingSignature)
    } else if env.mint_owner.0@ != env.token_program_id.0@ {
        Some(TransferError::InvalidAccountOwner)
    } else if env.metadata_owner.0@ != env.metadata_program_id.0@ {
        Some(TransferError::InvalidAccountOwner)
    } else if env.derived_metadata_key.0@ != env.metadata_key.0@ {
        Some(TransferError::InvalidMetadataKey)
    } else if env.metadata_update_authority.0@ != env.update_authority_key.0@ {
        Some(TransferError::InvalidUpdateAuthority)
    } else if !env.metadata_is_mutable {
        Some(TransferError::MetadataIsImmutable)
    } else if env.derived_private_metadata_key.0@ != env.private_metadata_key.0@ {
        Some(TransferError::InvalidPrivateMetadataKey)
    } else if record.key != Key::Uninitialized {
        Some(TransferError::WrongRecordKind)
    } else {
        None
    }
}

/// Configures the durable record for an asset: validates the authority and
/// binding checks, then writes the record exactly once with the initial
/// encrypted secret. Mutates nothing on failure.
pub fn process_configure_metadata(
    env: &ConfigureEnv,
    mint: &AccountId,
    elgamal_pk: &ElGamalPubkey,
    encrypted_cipher_key: &Vec<ElGamalCiphertext>,
    uri: &Vec<u8>,
    record: &mut PrivateMetadataAccount,
) -> (r: Result<(), TransferError>)
    requires
        encrypted_cipher_key@.len() == CIPHER_KEY_CHUNKS,
        uri@.len() == URI_LEN,
    ensures
        match r {
            Ok(()) => {
                &&& configure_check(*env, *old(record)) is None
                &&& final(record).key == Key::PrivateMetadataAccountV1
                &&& final(record).mint == *mint
                &&& final(record).elgamal_pk == *elgamal_pk
                &&& final(record).encrypted_cipher_key@ == encrypted_cipher_key@
                &&& final(record).uri@ == uri@
                &&& final(record).wf()
            },
            Err(e) => {
                &&& Some(e) == configure_check(*env, *old(record))
                &&& *final(record) == *old(record)
            },
        },
{
    if !env.payer_is_signer {
        return Err(TransferError::MissingSignature);
    }
    if !account_eq(&env.mint_owner, &env.token_program_id) {
        return Err(TransferError::InvalidAccountOwner);
    }
    if !account_eq(&env.metadata_owner, &env.metadata_program_id) {
        return Err(TransferError::InvalidAccountOwner);
    }
    if !account_eq(&env.derived_metadata_key, &env.metadata_key) {
        return Err(TransferError::InvalidMetadataKey);
    }
    if !account_eq(&env.metadata_update_authority, &env.update_authority_key) {
        return Err(TransferError::InvalidUpdateAuthority);
    }
    if !env.metadata_is_mutable {
        return Err(TransferError::MetadataIsImmutable);
    }
    if !account_eq(&env.derived_private_metadata_key, &env.private_metadata_key) {
        return Err(TransferError::InvalidPrivateMetadataKey);
    }
    if !matches!(record.key, Key::Uninitialized) {
        return Err(TransferError::WrongRecordKind);
    }

    record.key = Key::PrivateMetadataAccountV1;
    record.mint = *mint;
    record.elgamal_pk = *elgamal_pk;
    record.encrypted_cipher_key = copy_chunks(encrypted_cipher_key);
    record.uri = copy_bytes(uri);
    Ok(())
}

/// Copies a chunk vector.
fn copy_chunks(v: &Vec<ElGamalCiphertext>) -> (r: Vec<ElGamalCiphertext>)
    ensures
        r@ == v@,
{
    let mut out: Vec<ElGamalCiphertext> = Vec::new();
    let mut i: usize = 0;
    while i < v.len()
        invariant
            i <= v@.len(),
            out@ == v@.take(i as int),
        decreases v@.len() - i,
    {
        out.push(v[i]);
        proof {
            assert(v@.take(i + 1) =~= v@.take(i as int).push(v@[i as int]));
        }
        i += 1;
    }
    proof {
        assert(v@.take(v@.len() as int) =~= v@);
    }
    out
}

/// Copies a byte vector.
fn copy_bytes(v: &Vec<u8>) -> (r: Vec<u8>)
    ensures
        r@ == v@,
{
    let mut out: Vec<u8> = Vec::new();
    let mut i: usize = 0;
    while i < v.len()
        invariant
            i <= v@.len(),
            out@ == v@.take(i as int),
        decreases v@.len() - i,
    {
        out.push(v[i]);
        proof {
            assert(v@.take(i + 1) =~= v@.take(i as int).push(v@[i as int]));
        }
        i += 1;
    }
    proof {
        assert(v@.take(v@.len() as int) =~= v@);
    }
    out
}

/// The first error of the open-buffer checks, or none: the caller must have
/// signed, the token account must show the caller holding exactly the one
/// asset, the record address must match the derivation, and the buffer must
/// be sized, funded and still uninitialized.
pub open spec fn init_transfer_check(
    authority_is_signer: bool,
    authority: AccountId,
    token_account: TokenAccountView,
    mint: AccountId,
    derived_private_metadata_key: AccountId,
    private_metadata_key: AccountId,
    buffer_data_len: usize,
    buffer_lamports: u64,
    rent_minimum: u64,
    buffer: CipherKeyTransferBuffer,
) -> Option<TransferError> {
    if !authority_is_signer {
        Some(TransferError::MissingSignature)
    } else if token_account.mint.0@ != mint.0@ {
        Some(TransferError::MintMismatch)
    } else if token_account.owner.0@ != authority.0@ {
        Some(TransferError::OwnerMismatch)
    } else if token_account.amount != 1 {
        Some(TransferError::InvalidAmount)
    } else if derived_private_metadata_key.0@ != private_metadata_key.0@ {
        Some(TransferError::InvalidPrivateMetadataKey)
    } else if buffer_data_len != TRANSFER_BUFFER_PACKED_LEN {
        Some(TransferError::AccountDataTooSmall)
    } else if buffer_lamports < rent_minimum {
        Some(TransferError::InsufficientFunds)
    } else if buffer.key != Key::Uninitialized {
        Some(TransferError::BufferAlreadyInitialized)
    } else {
        None
    }
}

/// Opens a transfer buffer: binds it to the caller, the record, and the
/// destination key, with an empty bitmask. Fails without mutating anything
/// if the buffer was already initialized or any binding check fails.
pub fn process_init_transfer(
    authority_is_signer: bool,
    authority: &AccountId,
    token_account: &TokenAccountView,
    mint: &AccountId,
    derived_private_metadata_key: &AccountId,
    private_metadata_key: &AccountId,
    buffer_data_len: usize,
    buffer_lamports: u64,
    rent_minimum: u64,
    elgamal_pk: &ElGamalPubkey,
    buffer: &mut CipherKeyTransferBuffer,
) -> (r: Result<(), TransferError>)
    ensures
        match r {
            Ok(()) => {
                &&& init_transfer_check(
                    authority_is_signer,
                    *authority,
                    *token_account,
                    *mint,
                    *derived_private_metadata_key,
                    *private_metadata_key,
                    buffer_data_len,
                    buffer_lamports,
                    rent_minimum,
                    *old(buffer),
                ) is None
                &&& final(buffer).key == Key::CipherKeyTransferBufferV1
                &&& final(buffer).authority == *authority
                &&& final(buffer).private_metadata_key == *private_metadata_key
                &&& final(buffer).elgamal_pk == *elgamal_pk
                &&& final(buffer).updated == 0u8
                &&& final(buffer).encrypted_cipher_key == old(buffer).encrypted_cipher_key
            },
            Err(e) => {
                &&& Some(e) == init_transfer_check(
                    authority_is_signer,
                    *authority,
                    *token_account,
                    *mint,
                    *derived_private_metadata_key,
                    *private_metadata_key,
                    buffer_data_len,
                    buffer_lamports,
                    rent_minimum,
                    *old(buffer),
                )
                &&& *final(buffer) == *old(buffer)
            },
        },
{
    if !authority_is_signer {
        return Err(TransferError::MissingSignature);
    }
    if !account_eq(&token_account.mint, mint) {
        return Err(TransferError::MintMismatch);
    }
    if !account_eq(&token_account.owner, authority) {
        return Err(TransferError::OwnerMismatch);
    }
    if token_account.amount != 1 {
        return Err(TransferError::InvalidAmount);
    }
    if !account_eq(derived_private_metadata_key, private_metadata_key) {
        return Err(TransferError::InvalidPrivateMetadataKey);
    }
    if buffer_data_len != TRANSFER_BUFFER_PACKED_LEN {
        return Err(TransferError::AccountDataTooSmall);
    }
    if buffer_lamports < rent_minimum {
        return Err(TransferError::InsufficientFunds);
    }
    if !matches!(buffer.key, Key::Uninitialized) {
        return Err(TransferError::BufferAlreadyInitialized);
    }

    buffer.key = Key::CipherKeyTransferBufferV1;
    buffer.authority = *authority;
    buffer.private_metadata_key = *private_metadata_key;
    buffer.elgamal_pk = *elgamal_pk;
    buffer.updated = 0;
    Ok(())
}

/// The first error of the apply-chunk binding checks, or none: the caller
/// must be the bound authority, the chunk must not have been applied yet,
/// and the request's keys and source ciphertext must match the record and
/// buffer exactly. Stale or mismatched submissions are rejected, never
/// silently accepted. Both verification strategies share these checks.
pub open spec fn apply_chunk_precheck(
    authority_is_signer: bool,
    authority: AccountId,
    private_metadata_key: AccountId,
    record: PrivateMetadataAccount,
    buffer: CipherKeyTransferBuffer,
    chunk_idx: u8,
    t: TransferData,
) -> Option<TransferError> {
    if !authority_is_signer {
        Some(TransferError::MissingSignature)
    } else if buffer.key != Key::CipherKeyTransferBufferV1 {
        Some(TransferError::BufferUninitialized)
    } else if buffer.authority.0@ != authority.0@ {
        Some(TransferError::AuthorityMismatch)
    } else if buffer.private_metadata_key.0@ != private_metadata_key.0@ {
        Some(TransferError::RecordMismatch)
    } else if chunk_idx >= CIPHER_KEY_CHUNKS {
        Some(TransferError::ChunkIndexOutOfRange)
    } else if buffer.chunk_set(chunk_idx) {
        Some(TransferError::ChunkAlreadySet)
    } else if record.key != Key::PrivateMetadataAccountV1 {
        Some(TransferError::WrongRecordKind)
    } else if t.transfer_public_keys.src_pubkey.0@ != record.elgamal_pk.0@ {
        Some(TransferError::SourceKeyMismatch)
    } else if t.src_cipher_key_chunk_ct.wire() != record.encrypted_cipher_key@[chunk_idx as int].wire() {
        Some(TransferError::SourceCiphertextMismatch)
    } else if t.transfer_public_keys.dst_pubkey.0@ != buffer.elgamal_pk.0@ {
        Some(TransferError::DestinationKeyMismatch)
    } else {
        None
    }
}

/// The binding prechecks, then the in-process proof verification.
pub open spec fn apply_chunk_check(
    authority_is_signer: bool,
    authority: AccountId,
    private_metadata_key: AccountId,
    record: PrivateMetadataAccount,
    buffer: CipherKeyTransferBuffer,
    chunk_idx: u8,
    t: TransferData,
) -> Option<TransferError> {
    let pre = apply_chunk_precheck(
        authority_is_signer,
        authority,
        private_metadata_key,
        record,
        buffer,
        chunk_idx,
        t,
    );
    if pre is Some {
        pre
    } else if !transfer_accepts(t) {
        Some(TransferError::ProofVerificationError)
    } else {
        None
    }
}

/// Applies one proven chunk: verifies every binding and the proof, then
/// marks the chunk's bit and stores the re-encrypted chunk. A failed
/// request mutates nothing; a chunk can be applied at most once.
pub fn process_transfer_chunk(
    authority_is_signer: bool,
    authority: &AccountId,
    private_metadata_key: &AccountId,
    record: &PrivateMetadataAccount,
    buffer: &mut CipherKeyTransferBuffer,
    chunk_idx: u8,
    t: &TransferData,
) -> (r: Result<(), TransferError>)
    requires
        old(buffer).wf(),
        record.wf(),
    ensures
        final(buffer).wf(),
        match r {
            Ok(()) => {
                &&& apply_chunk_check(
                    authority_is_signer,
                    *authority,
                    *private_metadata_key,
                    *record,
                    *old(buffer),
                    chunk_idx,
                    *t,
                ) is None
                &&& final(buffer).key == old(buffer).key
                &&& final(buffer).authority == old(buffer).authority
                &&& final(buffer).private_metadata_key == old(buffer).private_metadata_key
                &&& final(buffer).elgamal_pk == old(buffer).elgamal_pk
                &&& final(buffer).updated == old(buffer).updated | (1u8 << chunk_idx)
                &&& final(buffer).encrypted_cipher_key@ == old(buffer).encrypted_cipher_key@.update(
                    chunk_idx as int,
                    t.dst_cipher_key_chunk_ct,
                )
            },
            Err(e) => {
                &&& Some(e) == apply_chunk_check(
                    authority_is_signer,
                    *authority,
                    *private_metadata_key,
                    *record,
                    *old(buffer),
                    chunk_idx,
                    *t,
                )
                &&& *final(buffer) == *old(buffer)
            },
        },
{
    if !authority_is_signer {
        return Err(TransferError::MissingSignature);
    }
    if !matches!(buffer.key, Key::CipherKeyTransferBufferV1) {
        return Err(TransferError::BufferUninitialized);
    }
    if !account_eq(&buffer.authority, authority) {
        return Err(TransferError::AuthorityMismatch);
    }
    if !account_eq(&buffer.private_metadata_key, private_metadata_key) {
        return Err(TransferError::RecordMismatch);
    }
    if chunk_idx as usize >= CIPHER_KEY_CHUNKS {
        return Err(TransferError::ChunkIndexOutOfRange);
    }
    let updated_mask: u8 = 1u8 << chunk_idx;
    if buffer.updated & updated_mask != 0 {
        return Err(TransferError::ChunkAlreadySet);
    }
    if !matches!(record.key, Key::PrivateMetadataAccountV1) {
        return Err(TransferError::WrongRecordKind);
    }
    if !pubkey_eq(&t.transfer_public_keys.src_pubkey, &record.elgamal_pk) {
        return Err(TransferError::SourceKeyMismatch);
    }
    if !ciphertext_eq(
        &t.src_cipher_key_chunk_ct,
        &record.encrypted_cipher_key[chunk_idx as usize],
    ) {
        return Err(TransferError::SourceCiphertextMismatch);
    }
    if !pubkey_eq(&t.transfer_public_keys.dst_pubkey, &buffer.elgamal_pk) {
        return Err(TransferError::DestinationKeyMismatch);
    }
    if verify_transfer(t).is_err() {
        return Err(TransferError::ProofVerificationError);
    }

    buffer.updated = buffer.updated | updated_mask;
    buffer.encrypted_cipher_key[chunk_idx as usize] = t.dst_cipher_key_chunk_ct;
    Ok(())
}


/// The binding prechecks, then the buffer-assisted proof verification.
pub open spec fn apply_chunk_slow_check(
    authority_is_signer: bool,
    authority: AccountId,
    private_metadata_key: AccountId,
    record: PrivateMetadataAccount,
    buffer: CipherKeyTransferBuffer,
    chunk_idx: u8,
    t: TransferData,
    instruction_buffer_key: AccountId,
    input_buffer_key: AccountId,
    instruction_data: Seq<u8>,
    input_data: Seq<u8>,
    compute_data: Seq<u8>,
) -> Option<TransferError> {
    let pre = apply_chunk_precheck(
        authority_is_signer,
        authority,
        private_metadata_key,
        record,
        buffer,
        chunk_idx,
        t,
    );
    if pre is Some {
        pre
    } else {
        slow_proof_check(
            t,
            authority,
            instruction_buffer_key,
            input_buffer_key,
            instruction_data,
            input_data,
            compute_data,
        )
    }
}

/// Applies one proven chunk by the buffer-assisted strategy: the same
/// binding checks and the same effect as the direct strategy, with the
/// proof checked against the evaluator's published inputs and outputs. A
/// failed request mutates nothing; a chunk can be applied at most once.
pub fn process_transfer_chunk_slow(
    authority_is_signer: bool,
    authority: &AccountId,
    private_metadata_key: &AccountId,
    record: &PrivateMetadataAccount,
    buffer: &mut CipherKeyTransferBuffer,
    chunk_idx: u8,
    t: &TransferData,
    instruction_buffer_key: &AccountId,
    input_buffer_key: &AccountId,
    instruction_data: &[u8],
    input_data: &[u8],
    compute_data: &[u8],
) -> (r: Result<(), TransferError>)
    requires
        old(buffer).wf(),
        record.wf(),
    ensures
        final(buffer).wf(),
        match r {
            Ok(()) => {
                &&& apply_chunk_slow_check(
                    authority_is_signer,
                    *authority,
                    *private_metadata_key,
                    *record,
                    *old(buffer),
                    chunk_idx,
                    *t,
                    *instruction_buffer_key,
                    *input_buffer_key,
                    instruction_data@,
                    input_data@,
                    compute_data@,
                ) is None
                &&& final(buffer).key == old(buffer).key
                &&& final(buffer).authority == old(buffer).authority
                &&& final(buffer).private_metadata_key == old(buffer).private_metadata_key
                &&& final(buffer).elgamal_pk == old(buffer).elgamal_pk
                &&& final(buffer).updated == old(buffer).updated | (1u8 << chunk_idx)
                &&& final(buffer).encrypted_cipher_key@ == old(buffer).encrypted_cipher_key@.update(
                    chunk_idx as int,
                    t.dst_cipher_key_chunk_ct,
                )
            },
            Err(e) => {
                &&& Some(e) == apply_chunk_slow_check(
                    authority_is_signer,
                    *authority,
                    *private_metadata_key,
                    *record,
                    *old(buffer),
                    chunk_idx,
                    *t,
                    *instruction_buffer_key,
                    *input_buffer_key,
                    instruction_data@,
                    input_data@,
                    compute_data@,
                )
                &&& *final(buffer) == *old(buffer)
            },
        },
{
    if !authority_is_signer {
        return Err(TransferError::MissingSignature);
    }
    if !matches!(buffer.key, Key::CipherKeyTransferBufferV1) {
        return Err(TransferError::BufferUninitialized);
    }
    if !account_eq(&buffer.authority, authority) {
        return Err(TransferError::AuthorityMismatch);
    }
    if !account_eq(&buffer.private_metadata_key, private_metadata_key) {
        return Err(TransferError::RecordMismatch);
    }
    if chunk_idx as usize >= CIPHER_KEY_CHUNKS {
        return Err(TransferError::ChunkIndexOutOfRange);
    }
    let updated_mask: u8 = 1u8 << chunk_idx;
    if buffer.updated & updated_mask != 0 {
        return Err(TransferError::ChunkAlreadySet);
    }
    if !matches!(record.key, Key::PrivateMetadataAccountV1) {
        return Err(TransferError::WrongRecordKind);
    }
    if !pubkey_eq(&t.transfer_public_keys.src_pubkey, &record.elgamal_pk) {
        return Err(TransferError::SourceKeyMismatch);
    }
    if !ciphertext_eq(
        &t.src_cipher_key_chunk_ct,
        &record.encrypted_cipher_key[chunk_idx as usize],
    ) {
        return Err(TransferError::SourceCiphertextMismatch);
    }
    if !pubkey_eq(&t.transfer_public_keys.dst_pubkey, &buffer.elgamal_pk) {
        return Err(TransferError::DestinationKeyMismatch);
    }
    match verify_transfer_slow(
        t,
        authority,
        instruction_buffer_key,
        input_buffer_key,
        instruction_data,
        input_data,
        compute_data,
    ) {
        Ok(()) => {},
        Err(e) => { return Err(e) },
    }

    buffer.updated = buffer.updated | updated_mask;
    buffer.encrypted_cipher_key[chunk_idx as usize] = t.dst_cipher_key_chunk_ct;
    Ok(())
}

/// What a successful finalize hands back to the ledger: the authority's new
/// balance, and the drained buffer balance whose zero value reclaims the
/// buffer's storage and thereby destroys it.
#[derive(Clone, Copy, Debug)]
pub struct FiniTransferOutcome {
    pub authority_lamports: u64,
    pub buffer_lamports: u64,
}

/// The first error of the finalize checks, or none: the caller must be the
/// bound authority, every chunk bit must be set, the record must match, and
/// returning the buffer's funds must not overflow the authority's balance.
pub open spec fn fini_transfer_check(
    authority_is_signer: bool,
    authority: AccountId,
    private_metadata_key: AccountId,
    buffer: CipherKeyTransferBuffer,
    record: PrivateMetadataAccount,
    authority_lamports: u64,
    buffer_lamports: u64,
) -> Option<TransferError> {
    if !authority_is_signer {
        Some(TransferError::MissingSignature)
    } else if buffer.key != Key::CipherKeyTransferBufferV1 {
        Some(TransferError::BufferUninitialized)
    } else if buffer.authority.0@ != authority.0@ {
        Some(TransferError::AuthorityMismatch)
    } else if buffer.private_metadata_key.0@ != private_metadata_key.0@ {
        Some(TransferError::RecordMismatch)
    } else if buffer.updated & ALL_CHUNKS_MASK != ALL_CHUNKS_MASK {
        Some(TransferError::NotAllChunksSet)
    } else if record.key != Key::PrivateMetadataAccountV1 {
        Some(TransferError::WrongRecordKind)
    } else if authority_lamports + buffer_lamports > u64::MAX {
        Some(TransferError::Overflow)
    } else {
        None
    }
}

/// Finalizes a transfer: copies the buffer's destination key and its
/// accumulated ciphertext onto the record in one step, then drains the
/// buffer's funds back to the authority, destroying the buffer. Fails
/// without mutating anything whenever any chunk bit is unset.
pub fn process_fini_transfer(
    authority_is_signer: bool,
    authority: &AccountId,
    private_metadata_key: &AccountId,
    buffer: &CipherKeyTransferBuffer,
    record: &mut PrivateMetadataAccount,
    authority_lamports: u64,
    buffer_lamports: u64,
) -> (r: Result<FiniTransferOutcome, TransferError>)
    requires
        buffer.wf(),
        old(record).wf(),
    ensures
        final(record).wf(),
        match r {
            Ok(o) => {
                &&& fini_transfer_check(
                    authority_is_signer,
                    *authority,
                    *private_metadata_key,
                    *buffer,
                    *old(record),
                    authority_lamports,
                    buffer_lamports,
                ) is None
                &&& final(record).key == old(record).key
                &&& final(record).mint == old(record).mint
                &&& final(record).elgamal_pk == buffer.elgamal_pk
                &&& final(record).encrypted_cipher_key@ == buffer.encrypted_cipher_key@
                &&& final(record).uri@ == old(record).uri@
                &&& o.authority_lamports == authority_lamports + buffer_lamports
                &&& o.buffer_lamports == 0u64
            },
            Err(e) => {
                &&& Some(e) == fini_transfer_check(
                    authority_is_signer,
                    *authority,
                    *private_metadata_key,
                    *buffer,
                    *old(record),
                    authority_lamports,
                    buffer_lamports,
                )
                &&& *final(record) == *old(record)
            },
        },
{
    if !authority_is_signer {
        return Err(TransferError::MissingSignature);
    }
    if !matches!(buffer.key, Key::CipherKeyTransferBufferV1) {
        return Err(TransferError::BufferUninitialized);
    }
    if !account_eq(&buffer.authority, authority) {
        return Err(TransferError::AuthorityMismatch);
    }
    if !account_eq(&buffer.private_metadata_key, private_metadata_key) {
        return Err(TransferError::RecordMismatch);
    }
    if buffer.updated & ALL_CHUNKS_MASK != ALL_CHUNKS_MASK {
        return Err(TransferError::NotAllChunksSet);
    }
    if !matches!(record.key, Key::PrivateMetadataAccountV1) {
        return Err(TransferError::WrongRecordKind);
    }
    let new_authority_lamports = match authority_lamports.checked_add(buffer_lamports) {
        Some(v) => v,
        None => { return Err(TransferError::Overflow) },
    };

    record.elgamal_pk = buffer.elgamal_pk;
    record.encrypted_cipher_key = copy_chunks(&buffer.encrypted_cipher_key);
    Ok(FiniTransferOutcome { authority_lamports: new_authority_lamports, buffer_lamports: 0 })
}

} // verus!
