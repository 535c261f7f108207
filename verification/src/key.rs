//! Public keys of identities.

use vstd::prelude::*;

verus! {

/// The error type of `personae`, carried through unopened.
#[verifier::external_type_specification]
#[verifier::external_body]
pub struct ExIdentityError(personae::IdentityError);

/// Whether 32 bytes encode an Ed25519 public key, as
/// `personae::Ed25519PublicKey::from_bytes` decides it.
pub uninterp spec fn encodes_public_key(bytes: Seq<u8>) -> bool;

/// Decodes a public key with `personae::Ed25519PublicKey::from_bytes` and
/// gives the encoding that the decoded key keeps.
///
/// Trusted: decoding succeeds on exactly the bytes that encode a public key,
/// a matter of those bytes alone; and a decoded key keeps the encoding it was
/// decoded from.
#[verifier::external_body]
fn decode_public_key(bytes: &[u8; 32]) -> (decoded: Result<[u8; 32], personae::IdentityError>)
    ensures
        decoded is Ok <==> encodes_public_key(bytes@),
        decoded matches Ok(kept) ==> kept@ == bytes@,
{
    match personae::Ed25519PublicKey::from_bytes(bytes) {
        Ok(key) => Ok(key.to_bytes()),
        Err(error) => Err(error),
    }
}

/// The bytes at hand are not the encoding of a public key.
#[derive(Clone, Copy, Debug, PartialEq, Eq)]
pub struct InvalidPublicKey;

/// The public key of an identity.
///
/// Its view is the 32 byte encoding of the key.
#[derive(Clone, Copy, Debug, PartialEq, Eq)]
pub struct PublicKey {
    bytes: [u8; 32],
}

impl View for PublicKey {
    type V = Seq<u8>;

    closed spec fn view(&self) -> Seq<u8> {
        self.bytes@
    }
}

impl PublicKey {
    /// Every key at hand is one that decodes.
    #[verifier::type_invariant]
    spec fn decodes(self) -> bool {
        encodes_public_key(self.bytes@)
    }

    /// The key that `bytes` encode.
    pub fn from_bytes(bytes: &[u8; 32]) -> (key: Result<PublicKey, InvalidPublicKey>)
        ensures
            key is Ok <==> encodes_public_key(bytes@),
            key matches Ok(k) ==> k@ == bytes@,
    {
        match decode_public_key(bytes) {
            Ok(kept) => Ok(PublicKey { bytes: kept }),
            Err(_) => Err(InvalidPublicKey),
        }
    }

    /// The encoding of this key.
    pub fn to_bytes(&self) -> (bytes: [u8; 32])
        ensures
            bytes@ == self@,
            encodes_public_key(bytes@),
    {
        proof {
            use_type_invariant(self);
        }
        self.bytes
    }
}

/// Whether the two encodings agree in every byte.
pub fn same_bytes(a: &[u8; 32], b: &[u8; 32]) -> (same: bool)
    ensures
        same == (a@ == b@),
{
    for i in 0..32
        invariant
            forall|j: int| 0 <= j < i ==> a@[j] == b@[j],
    {
        if a[i] != b[i] {
            return false;
        }
    }
    proof {
        assert(a@ =~= b@);
    }
    true
}

} // verus!
