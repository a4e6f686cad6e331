//! Error taxonomy of the transfer core: authorization failures, binding or
//! reference mismatches, protocol-state violations, proof-verification
//! failure, and resource errors. Every operation reports its error before any
//! state is mutated.

use vstd::prelude::*;

verus! {

/// One failure category per §distinct externally visible signal. Proof
/// verification failure is a single opaque variant: it deliberately does not
/// say which relation of the proof failed.
#[derive(Clone, Copy, Debug, PartialEq, Eq, Structural)]
pub enum TransferError {
    /// The required authority did not sign the request.
    MissingSignature,
    /// An account is owned by the wrong program.
    InvalidAccountOwner,
    /// The caller is not the authority bound to the buffer.
    AuthorityMismatch,
    /// The metadata record does not match the asset's derived address.
    InvalidMetadataKey,
    /// The metadata's update authority does not match the caller's claim.
    InvalidUpdateAuthority,
    /// The metadata record is immutable and cannot be configured.
    MetadataIsImmutable,
    /// The token account is not for the expected asset.
    MintMismatch,
    /// The token account is not held by the caller.
    OwnerMismatch,
    /// The token account does not hold exactly the one asset.
    InvalidAmount,
    /// The private-metadata record does not match the asset's derived address.
    InvalidPrivateMetadataKey,
    /// The transfer buffer is not bound to this private-metadata record.
    RecordMismatch,
    /// A record or buffer holds the wrong record-kind tag.
    WrongRecordKind,
    /// The transfer buffer has already been initialized.
    BufferAlreadyInitialized,
    /// The transfer buffer has not been initialized yet.
    BufferUninitialized,
    /// The chunk at this index has already been proven and stored.
    ChunkAlreadySet,
    /// The chunk index is outside the fixed chunk count.
    ChunkIndexOutOfRange,
    /// Not every chunk has been proven, so the transfer cannot commit.
    NotAllChunksSet,
    /// The proof's source public key differs from the record's owner key.
    SourceKeyMismatch,
    /// The proof's source ciphertext differs from the record's current chunk.
    SourceCiphertextMismatch,
    /// The proof's destination public key differs from the buffer's key.
    DestinationKeyMismatch,
    /// The zero-knowledge equality proof did not verify, under either
    /// verification strategy. Deliberately opaque: it does not say which
    /// relation, or which buffer-assisted check, failed.
    ProofVerificationError,
    /// The buffer account is not sized for a transfer buffer.
    AccountDataTooSmall,
    /// The buffer account's funding is below the required threshold.
    InsufficientFunds,
    /// Fund return on buffer destruction would overflow.
    Overflow,
    /// A submitted byte string has the wrong length or tag.
    InvalidInstructionData,
}

} // verus!
