//! Plain byte-level value types of the wire protocol: 32-byte account
//! addresses, 32-byte compressed group elements standing for encryption keys,
//! and 64-byte ciphertext chunks (commitment followed by decryption handle).

use vstd::prelude::*;

verus! {

/// An opaque 32-byte identifier of a ledger entity.
#[derive(Clone, Copy, Debug)]
pub struct AccountId(pub [u8; 32]);

/// A 32-byte compressed group element identifying a recipient's encryption
/// capability.
#[derive(Clone, Copy, Debug)]
pub struct ElGamalPubkey(pub [u8; 32]);

/// One fixed-width ciphertext chunk: a Pedersen commitment and a decryption
/// handle, 32 bytes each. On the wire it is the 64 bytes
/// commitment followed by handle.
#[derive(Clone, Copy, Debug)]
pub struct ElGamalCiphertext {
    pub commitment: [u8; 32],
    pub handle: [u8; 32],
}

impl ElGamalCiphertext {
    /// The 64-byte wire encoding of this chunk.
    pub open spec fn wire(self) -> Seq<u8> {
        self.commitment@ + self.handle@
    }
}

/// Compares two 32-byte strings for equality.
pub fn bytes32_eq(a: &[u8; 32], b: &[u8; 32]) -> (r: bool)
    ensures
        r == (a@ == b@),
{
    let mut i: usize = 0;
    while i < 32
        invariant
            i <= 32,
            forall|j: int| 0 <= j < i ==> a@[j] == b@[j],
        decreases 32 - i,
    {
        if a[i] != b[i] {
            return false;
        }
        i += 1;
    }
    proof {
        assert(a@ =~= b@);
    }
    true
}

/// Compares two account identifiers.
pub fn account_eq(a: &AccountId, b: &AccountId) -> (r: bool)
    ensures
        r == (a.0@ == b.0@),
{
    bytes32_eq(&a.0, &b.0)
}

/// Compares two encryption public keys.
pub fn pubkey_eq(a: &ElGamalPubkey, b: &ElGamalPubkey) -> (r: bool)
    ensures
        r == (a.0@ == b.0@),
{
    bytes32_eq(&a.0, &b.0)
}

/// Compares two ciphertext chunks, commitment and handle alike.
pub fn ciphertext_eq(a: &ElGamalCiphertext, b: &ElGamalCiphertext) -> (r: bool)
    ensures
        r == (a.wire() == b.wire()),
{
    let r = bytes32_eq(&a.commitment, &b.commitment) && bytes32_eq(&a.handle, &b.handle);
    proof {
        if a.commitment@ == b.commitment@ && a.handle@ == b.handle@ {
            assert(a.wire() =~= b.wire());
        }
        if a.wire() == b.wire() {
            assert(a.commitment@ =~= Seq::new(32, |i: int| a.wire()[i]));
            assert(b.commitment@ =~= Seq::new(32, |i: int| b.wire()[i]));
            assert(a.handle@ =~= Seq::new(32, |i: int| a.wire()[i + 32]));
            assert(b.handle@ =~= Seq::new(32, |i: int| b.wire()[i + 32]));
        }
    }
    r
}

} // verus!
