use ed25519_dalek::{Signer, Verifier};
use vstd::prelude::*;

use crate::hash;
use crate::hash::{bytes_from_hex, encode_hex, hex_bytes, hex_text, is_hex_text, HexDecodeError};

verus! {

/// The Ed25519 public key that belongs to a 32-byte secret.
pub uninterp spec fn ed25519_public_key(secret: Seq<u8>) -> Seq<u8>;

/// The Ed25519 signature that a 32-byte secret makes on a message.
pub uninterp spec fn ed25519_signature(secret: Seq<u8>, message: Seq<u8>) -> Seq<u8>;

/// Whether an Ed25519 signature on a message checks out under a public key.
pub uninterp spec fn ed25519_accepts(public: Seq<u8>, message: Seq<u8>, signature: Seq<u8>) -> bool;

/// Relies on `ed25519_dalek::SigningKey::generate` with `rand::thread_rng`:
/// fresh random secret bytes, of which nothing is promised.
#[verifier::external_body]
fn random_secret() -> (r: [u8; 32]) {
    ed25519_dalek::SigningKey::generate(&mut rand::thread_rng()).to_bytes()
}

/// Relies on `ed25519_dalek::SigningKey::verifying_key`: the compressed public
/// key, a function of the secret bytes alone.
#[verifier::external_body]
fn public_key_of(secret: &[u8; 32]) -> (r: [u8; 32])
    ensures
        r@ == ed25519_public_key(secret@),
{
    ed25519_dalek::SigningKey::from_bytes(secret).verifying_key().to_bytes()
}

/// Relies on `ed25519_dalek::SigningKey::sign`: Ed25519 signing is
/// deterministic, so the signature depends on the secret and the message alone.
#[verifier::external_body]
fn sign_message(secret: &[u8; 32], message: &[u8]) -> (r: [u8; 64])
    ensures
        r@ == ed25519_signature(secret@, message@),
{
    ed25519_dalek::SigningKey::from_bytes(secret).sign(message).to_bytes()
}

/// Relies on `ed25519_dalek::VerifyingKey::from_bytes` and its `verify`: bytes
/// that are no curve point are refused, and a signature that a secret made on
/// the message is accepted under that secret's own public key.
#[verifier::external_body]
fn signature_accepted(public: &[u8; 32], message: &[u8], signature: &[u8; 64]) -> (r: bool)
    ensures
        r == ed25519_accepts(public@, message@, signature@),
        forall|secret: Seq<u8>|
            #![trigger ed25519_signature(secret, message@)]
            secret.len() == 32 && public@ == ed25519_public_key(secret) && signature@
                == ed25519_signature(secret, message@) ==> r,
{
    match ed25519_dalek::VerifyingKey::from_bytes(public) {
        Ok(key) => key.verify(message, &ed25519_dalek::Signature::from_bytes(signature)).is_ok(),
        Err(_) => false,
    }
}

/// The secret half of an Ed25519 key pair, held as its 32 seed bytes. It is a
/// local secret and never part of the ledger.
#[derive(Debug, Clone)]
pub struct SigningKey(pub [u8; 32]);

/// An Ed25519 public key, held as its 32 compressed bytes.
#[derive(Debug, Clone, Copy, Eq)]
pub struct VerifyingKey(pub [u8; 32]);

impl View for SigningKey {
    type V = Seq<u8>;

    open spec fn view(&self) -> Seq<u8> {
        self.0@
    }
}

impl View for VerifyingKey {
    type V = Seq<u8>;

    open spec fn view(&self) -> Seq<u8> {
        self.0@
    }
}

impl PartialEq for VerifyingKey {
    fn eq(&self, other: &VerifyingKey) -> (r: bool) {
        let mut i: usize = 0;
        while i < 32
            invariant
                i <= 32,
                forall|k: int| 0 <= k < i ==> self@[k] == other@[k],
            decreases 32 - i,
        {
            if self.0[i] != other.0[i] {
                return false;
            }
            i = i + 1;
        }
        assert(self@ =~= other@);
        true
    }
}

impl vstd::std_specs::cmp::PartialEqSpecImpl for VerifyingKey {
    open spec fn obeys_eq_spec() -> bool {
        true
    }

    open spec fn eq_spec(&self, other: &VerifyingKey) -> bool {
        self@ == other@
    }
}

impl SigningKey {
    /// A fresh random key.
    pub fn generate() -> (r: SigningKey) {
        SigningKey(random_secret())
    }

    /// The public key that checks this key's signatures.
    pub fn verifying_key(&self) -> (r: VerifyingKey)
        ensures
            r@ == ed25519_public_key(self@),
    {
        VerifyingKey(public_key_of(&self.0))
    }

    /// This key's signature on `message`.
    pub fn sign(&self, message: &[u8]) -> (r: hash::Hash)
        ensures
            r@ == ed25519_signature(self@, message@),
    {
        hash::Hash(sign_message(&self.0, message))
    }

    /// The lowercase hexadecimal text of the secret bytes, for local storage.
    pub fn to_hex(&self) -> (r: String)
        ensures
            r@ == hex_text(self@),
    {
        encode_hex(self.0.as_slice())
    }

    /// Reads a secret key from the hexadecimal text of its 32 bytes.
    pub fn from_hex(s: &str) -> (r: Result<SigningKey, HexDecodeError>)
        ensures
            r is Ok <==> is_hex_text(s@) && hex_bytes(s@).len() == 32,
            r matches Ok(k) ==> k@ == hex_bytes(s@),
            r == Err::<SigningKey, HexDecodeError>(HexDecodeError::NotHex) <==> !is_hex_text(s@),
            r matches Err(HexDecodeError::WrongLength(n)) ==> n == hex_bytes(s@).len(),
    {
        match key_bytes_from_hex(s) {
            Ok(b) => Ok(SigningKey(b)),
            Err(e) => Err(e),
        }
    }
}

/// The 32 bytes that hexadecimal text stands for, if it stands for 32.
fn key_bytes_from_hex(s: &str) -> (r: Result<[u8; 32], HexDecodeError>)
    ensures
        r is Ok <==> is_hex_text(s@) && hex_bytes(s@).len() == 32,
        r matches Ok(b) ==> b@ == hex_bytes(s@),
        r == Err::<[u8; 32], HexDecodeError>(HexDecodeError::NotHex) <==> !is_hex_text(s@),
        r matches Err(HexDecodeError::WrongLength(n)) ==> n == hex_bytes(s@).len(),
{
    let v = match bytes_from_hex(s, 32) {
        Ok(v) => v,
        Err(e) => return Err(e),
    };
    let mut a = [0u8; 32];
    let mut i: usize = 0;
    while i < 32
        invariant
            i <= 32,
            v@.len() == 32,
            forall|k: int| 0 <= k < i ==> a@[k] == v@[k],
        decreases 32 - i,
    {
        a[i] = v[i];
        i = i + 1;
    }
    assert(a@ =~= v@);
    Ok(a)
}

impl VerifyingKey {
    /// The lowercase hexadecimal text of the key's 32 bytes.
    pub fn to_hex(&self) -> (r: String)
        ensures
            r@ == hex_text(self@),
    {
        encode_hex(self.0.as_slice())
    }

    /// Reads a public key from the hexadecimal text of its 32 bytes. Whether
    /// the bytes are a curve point is left to `verify`, which refuses them
    /// when they are not.
    pub fn from_hex(s: &str) -> (r: Result<VerifyingKey, HexDecodeError>)
        ensures
            r is Ok <==> is_hex_text(s@) && hex_bytes(s@).len() == 32,
            r matches Ok(k) ==> k@ == hex_bytes(s@),
            r == Err::<VerifyingKey, HexDecodeError>(HexDecodeError::NotHex) <==> !is_hex_text(s@),
            r matches Err(HexDecodeError::WrongLength(n)) ==> n == hex_bytes(s@).len(),
    {
        match key_bytes_from_hex(s) {
            Ok(b) => Ok(VerifyingKey(b)),
            Err(e) => Err(e),
        }
    }

    /// Whether `signature` is a valid signature on `message` under this key;
    /// a signature made by the matching secret key always is.
    pub fn verify(&self, message: &[u8], signature: &hash::Hash) -> (r: bool)
        ensures
            r == ed25519_accepts(self@, message@, signature@),
            forall|secret: Seq<u8>|
                #![trigger ed25519_signature(secret, message@)]
                secret.len() == 32 && self@ == ed25519_public_key(secret) && signature@
                    == ed25519_signature(secret, message@) ==> r,
    {
        signature_accepted(&self.0, message, &signature.0)
    }
}

} // verus!
