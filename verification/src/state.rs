//! Persisted record types: the durable private-metadata record and the
//! ephemeral transfer buffer, both tagged with an explicit record-kind
//! discriminant that is checked on every read.

use vstd::prelude::*;

use crate::pod::{AccountId, ElGamalCiphertext, ElGamalPubkey};

verus! {

/// Number of fixed-size chunks the encrypted secret is split into.
pub const CIPHER_KEY_CHUNKS: usize = 4;

/// Byte length of the stored URI locator for the public metadata portion.
pub const URI_LEN: usize = 100;

/// Bitmask value with one bit set for every chunk: the transfer may commit
/// only once the buffer's mask equals this value.
pub const ALL_CHUNKS_MASK: u8 = 15;

/// The mask is all ones in the low `CIPHER_KEY_CHUNKS` bits: every chunk,
/// not merely the highest-indexed one, must be proven before a commit.
pub proof fn lemma_all_chunks_mask()
    ensures
        ALL_CHUNKS_MASK == (1u8 << (CIPHER_KEY_CHUNKS as u8)) - 1,
{
    assert(15u8 == (1u8 << 4u8) - 1) by (bit_vector);
}

/// Record-kind discriminant stored in the first byte of every persisted
/// entity; an address's content kind is never assumed from context.
#[derive(Clone, Copy, Debug, PartialEq, Eq, Structural)]
pub enum Key {
    Uninitialized,
    PrivateMetadataAccountV1,
    CipherKeyTransferBufferV1,
}

/// The durable record holding the asset's encrypted secret: its current
/// owner encryption key, the chunked ciphertext bound to that key, and the
/// locator of the public metadata portion.
#[derive(Clone, Debug)]
pub struct PrivateMetadataAccount {
    pub key: Key,
    pub mint: AccountId,
    pub elgamal_pk: ElGamalPubkey,
    pub encrypted_cipher_key: Vec<ElGamalCiphertext>,
    pub uri: Vec<u8>,
}

impl PrivateMetadataAccount {
    /// Structural well-formedness: the chunk vector always holds exactly the
    /// fixed chunk count and the locator its fixed width.
    pub open spec fn wf(self) -> bool {
        &&& self.encrypted_cipher_key@.len() == CIPHER_KEY_CHUNKS
        &&& self.uri@.len() == URI_LEN
    }
}

/// The ephemeral per-transfer scratch record: bound to one authority, one
/// private-metadata record and one destination key, it accumulates verified
/// chunk re-encryptions and marks each applied chunk in a bitmask.
#[derive(Clone, Debug)]
pub struct CipherKeyTransferBuffer {
    pub key: Key,
    pub authority: AccountId,
    pub private_metadata_key: AccountId,
    pub elgamal_pk: ElGamalPubkey,
    pub updated: u8,
    pub encrypted_cipher_key: Vec<ElGamalCiphertext>,
}

impl CipherKeyTransferBuffer {
    /// Structural well-formedness: the accumulating chunk vector always holds
    /// exactly the fixed chunk count.
    pub open spec fn wf(self) -> bool {
        self.encrypted_cipher_key@.len() == CIPHER_KEY_CHUNKS
    }

    /// Whether the chunk at `idx` has already been applied.
    pub open spec fn chunk_set(self, idx: u8) -> bool {
        self.updated & (1u8 << idx) != 0
    }
}

} // verus!
