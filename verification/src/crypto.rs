//! Ed25519 keys and signatures, and the randomness that new keys come from.

use vstd::prelude::*;

verus! {

/// The length of a private key and of a public key, in bytes.
pub const KEY_LENGTH: usize = 32;

/// The length of a signature, in bytes.
pub const SIGNATURE_LENGTH: usize = 64;

/// The public key that belongs to a private key.
pub uninterp spec fn ed25519_public_key(secret: Seq<u8>) -> Seq<u8>;

/// The signature of a message under a private key.
pub uninterp spec fn ed25519_signature(secret: Seq<u8>, message: Seq<u8>) -> Seq<u8>;

/// Bytes that are the encoding of a point of the curve, and so can serve as a public key.
pub uninterp spec fn ed25519_is_public_key(bytes: Seq<u8>) -> bool;

/// A signature of a message that verifies under a public key.
pub uninterp spec fn ed25519_verifies(
    public: Seq<u8>,
    message: Seq<u8>,
    signature: Seq<u8>,
) -> bool;

/// `ed25519_dalek::SigningKey::from_bytes` and the bytes of its `verifying_key`: the public key of
/// a private key. It has the length of a key and encodes a point of the curve.
#[verifier::external_body]
fn derive_public_key(secret: &Vec<u8>) -> (out: Vec<u8>)
    requires
        secret.len() == KEY_LENGTH,
    ensures
        out@ == ed25519_public_key(secret@),
        out.len() == KEY_LENGTH,
        ed25519_is_public_key(out@),
{
    let seed: [u8; 32] = secret.as_slice().try_into().unwrap();
    ed25519_dalek::SigningKey::from_bytes(&seed).verifying_key().to_bytes().to_vec()
}

/// `ed25519_dalek::SigningKey::sign`: the signature of a message. It has the length of a
/// signature and verifies under the public key of the signing key.
#[verifier::external_body]
fn sign_message(secret: &Vec<u8>, message: &[u8]) -> (out: Vec<u8>)
    requires
        secret.len() == KEY_LENGTH,
    ensures
        out@ == ed25519_signature(secret@, message@),
        out.len() == SIGNATURE_LENGTH,
        ed25519_verifies(ed25519_public_key(secret@), message@, out@),
{
    let seed: [u8; 32] = secret.as_slice().try_into().unwrap();
    let key = ed25519_dalek::SigningKey::from_bytes(&seed);
    ed25519_dalek::Signer::sign(&key, message).to_bytes().to_vec()
}

/// `ed25519_dalek::VerifyingKey::from_bytes`: whether the bytes encode a point of the curve.
#[verifier::external_body]
fn public_key_is_valid(bytes: &Vec<u8>) -> (valid: bool)
    requires
        bytes.len() == KEY_LENGTH,
    ensures
        valid == ed25519_is_public_key(bytes@),
{
    let encoded: [u8; 32] = bytes.as_slice().try_into().unwrap();
    ed25519_dalek::VerifyingKey::from_bytes(&encoded).is_ok()
}

/// `ed25519_dalek::VerifyingKey::verify`, under a key that `VerifyingKey::from_bytes` accepts:
/// whether a signature of a message verifies.
#[verifier::external_body]
fn signature_is_valid(public: &Vec<u8>, message: &[u8], signature: &Vec<u8>) -> (valid:
    bool)
    requires
        public.len() == KEY_LENGTH,
        signature.len() == SIGNATURE_LENGTH,
        ed25519_is_public_key(public@),
    ensures
        valid == ed25519_verifies(public@, message@, signature@),
{
    let encoded: [u8; 32] = public.as_slice().try_into().unwrap();
    let mark = ed25519_dalek::Signature::from_slice(signature).unwrap();
    let key = ed25519_dalek::VerifyingKey::from_bytes(&encoded).unwrap();
    ed25519_dalek::Verifier::verify(&key, message, &mark).is_ok()
}

/// `rand::RngCore::fill_bytes` of `rand::thread_rng`: a fresh private key. Nothing is known of its
/// bytes but their number.
#[verifier::external_body]
fn random_private_key() -> (out: Vec<u8>)
    ensures
        out.len() == KEY_LENGTH,
{
    let mut bytes = [0u8; 32];
    rand::RngCore::fill_bytes(&mut rand::thread_rng(), &mut bytes);
    bytes.to_vec()
}

/// A private key.
pub struct SigningKey {
    bytes: Vec<u8>,
}

impl View for SigningKey {
    type V = Seq<u8>;

    closed spec fn view(&self) -> Seq<u8> {
        self.bytes@
    }
}

impl SigningKey {
    #[verifier::type_invariant]
    spec fn has_key_length(self) -> bool {
        self.bytes.len() == KEY_LENGTH
    }

    /// The private key of the given bytes, if there are as many as a key has.
    pub fn from_bytes(bytes: &Vec<u8>) -> (out: Option<SigningKey>)
        ensures
            out is Some <==> bytes.len() == KEY_LENGTH,
            out matches Some(key) ==> key@ == bytes@,
    {
        if bytes.len() != KEY_LENGTH {
            return None;
        }
        Some(SigningKey { bytes: copy_bytes(bytes) })
    }

    /// A fresh private key.
    pub fn generate() -> (key: SigningKey)
        ensures
            key@.len() == KEY_LENGTH,
    {
        SigningKey { bytes: random_private_key() }
    }

    /// The bytes of the key.
    pub fn to_bytes(&self) -> (out: Vec<u8>)
        ensures
            out@ == self@,
    {
        copy_bytes(&self.bytes)
    }

    /// The public key that belongs to the private key.
    pub fn public_key(&self) -> (out: Vec<u8>)
        ensures
            out@ == ed25519_public_key(self@),
            out.len() == KEY_LENGTH,
            ed25519_is_public_key(out@),
    {
        proof {
            use_type_invariant(self);
        }
        derive_public_key(&self.bytes)
    }

    /// The signature of a text. It verifies under the public key.
    pub fn sign(&self, message: &str) -> (out: Vec<u8>)
        ensures
            out@ == ed25519_signature(self@, vstd::utf8::encode_utf8(message@)),
            out.len() == SIGNATURE_LENGTH,
            ed25519_verifies(
                ed25519_public_key(self@),
                vstd::utf8::encode_utf8(message@),
                out@,
            ),
    {
        proof {
            use_type_invariant(self);
        }
        sign_message(&self.bytes, message.as_bytes())
    }
}

/// A public key.
#[derive(Debug)]
pub struct VerifyingKey {
    bytes: Vec<u8>,
}

impl View for VerifyingKey {
    type V = Seq<u8>;

    closed spec fn view(&self) -> Seq<u8> {
        self.bytes@
    }
}

impl VerifyingKey {
    #[verifier::type_invariant]
    spec fn is_a_key(self) -> bool {
        self.bytes.len() == KEY_LENGTH && ed25519_is_public_key(self.bytes@)
    }

    /// The public key of the given bytes, if they encode one.
    pub fn from_bytes(bytes: &Vec<u8>) -> (out: Option<VerifyingKey>)
        ensures
            out is Some <==> bytes.len() == KEY_LENGTH && ed25519_is_public_key(bytes@),
            out matches Some(key) ==> key@ == bytes@,
    {
        if bytes.len() != KEY_LENGTH || !public_key_is_valid(bytes) {
            return None;
        }
        Some(VerifyingKey { bytes: copy_bytes(bytes) })
    }

    /// Whether a signature of a text verifies.
    pub fn verify(&self, message: &str, signature: &SignatureBytes) -> (valid: bool)
        ensures
            valid == ed25519_verifies(
                self@,
                vstd::utf8::encode_utf8(message@),
                signature@,
            ),
    {
        proof {
            use_type_invariant(self);
            use_type_invariant(signature);
        }
        signature_is_valid(&self.bytes, message.as_bytes(), &signature.bytes)
    }
}

/// A signature.
#[derive(Debug)]
pub struct SignatureBytes {
    bytes: Vec<u8>,
}

impl View for SignatureBytes {
    type V = Seq<u8>;

    closed spec fn view(&self) -> Seq<u8> {
        self.bytes@
    }
}

impl SignatureBytes {
    #[verifier::type_invariant]
    spec fn has_signature_length(self) -> bool {
        self.bytes.len() == SIGNATURE_LENGTH
    }

    /// The signature of the given bytes, if there are as many as a signature has.
    pub fn from_bytes(bytes: &Vec<u8>) -> (out: Option<SignatureBytes>)
        ensures
            out is Some <==> bytes.len() == SIGNATURE_LENGTH,
            out matches Some(signature) ==> signature@ == bytes@,
    {
        if bytes.len() != SIGNATURE_LENGTH {
            return None;
        }
        Some(SignatureBytes { bytes: copy_bytes(bytes) })
    }
}

/// A copy of a buffer.
fn copy_bytes(bytes: &Vec<u8>) -> (out: Vec<u8>)
    ensures
        out@ == bytes@,
{
    let mut out: Vec<u8> = Vec::new();
    let mut i: usize = 0;
    while i < bytes.len()
        invariant
            i <= bytes.len(),
            out@ == bytes@.take(i as int),
        decreases bytes.len() - i,
    {
        out.push(bytes[i]);
        i = i + 1;
        assert(bytes@.take(i as int) == bytes@.take(i - 1).push(bytes@[i - 1]));
    }
    assert(bytes@.take(i as int) == bytes@);
    out
}

} // verus!
