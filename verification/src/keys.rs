//! Key material: a keypair as raw bytes, and its codec.
//!
//! A keypair is stored as two flat byte strings with no envelope and no
//! checksum. Decoding checks each half on its own: the halves are never
//! checked against each other.

use vstd::prelude::*;
use vstd::slice::slice_to_vec;

use crate::error::{Error, ErrorView, KeyPart};

verus! {

/// The width in bytes of a private key and of a public key.
pub const KEY_LENGTH: usize = 32;

/// The error of `ed25519_dalek`'s key constructors. It is carried, never
/// looked into: a rejected key becomes `InvalidKeyEncoding`.
#[verifier::external_type_specification]
#[verifier::external_body]
pub struct ExSignatureError(ed25519_dalek::SignatureError);

/// Whether `ed25519_dalek::PublicKey::from_bytes` accepts `bytes`: they are
/// 32 bytes that decompress to a point of the curve.
pub uninterp spec fn public_key_accepts(bytes: Seq<u8>) -> bool;

/// The bytes of the public key that `ed25519_dalek` derives from the private
/// key `secret`, as its conversion from `&SecretKey` to `PublicKey` does.
pub uninterp spec fn derived_public_key(secret: Seq<u8>) -> Seq<u8>;

/// Calls `ed25519_dalek::SecretKey::from_bytes` and hands the key back as
/// bytes. Trusted: the call succeeds exactly on 32 bytes, and the key it
/// builds holds those bytes unchanged.
#[verifier::external_body]
fn secret_key_from_bytes(bytes: &[u8]) -> (r: Result<Vec<u8>, ed25519_dalek::SignatureError>)
    ensures
        r.is_ok() == (bytes@.len() == 32),
        r matches Ok(v) ==> v@ == bytes@,
{
    match ed25519_dalek::SecretKey::from_bytes(bytes) {
        Ok(key) => Ok(key.to_bytes().to_vec()),
        Err(e) => Err(e),
    }
}

/// Calls `ed25519_dalek::PublicKey::from_bytes` and hands the key back as
/// bytes. Trusted: whether the call succeeds depends on the bytes alone,
/// it fails on any length but 32, and the key it builds keeps the
/// compressed bytes it was given.
#[verifier::external_body]
fn public_key_from_bytes(bytes: &[u8]) -> (r: Result<Vec<u8>, ed25519_dalek::SignatureError>)
    ensures
        r.is_ok() == public_key_accepts(bytes@),
        r.is_ok() ==> bytes@.len() == 32,
        r matches Ok(v) ==> v@ == bytes@,
{
    match ed25519_dalek::PublicKey::from_bytes(bytes) {
        Ok(key) => Ok(key.to_bytes().to_vec()),
        Err(e) => Err(e),
    }
}

/// Calls `ed25519_dalek::Keypair::generate` on the operating system's random
/// source and hands both halves back as bytes, private first. Trusted: each
/// half is 32 bytes; the public half is the one that the crate derives from
/// the private half, which is how `generate` makes it; and, being the
/// compression of a curve point, it is one that `PublicKey::from_bytes`
/// accepts. Nothing is claimed of the private half's value: it is random.
/// Where the operating system has no randomness to give, the call does not
/// return.
#[verifier::external_body]
fn generate_key_bytes() -> (r: (Vec<u8>, Vec<u8>))
    ensures
        r.0@.len() == 32,
        r.1@.len() == 32,
        r.1@ == derived_public_key(r.0@),
        public_key_accepts(r.1@),
{
    let pair = ed25519_dalek::Keypair::generate(&mut rand::rngs::OsRng {});
    (pair.secret.to_bytes().to_vec(), pair.public.to_bytes().to_vec())
}

/// Whether `bytes` are a structurally valid private key.
pub open spec fn valid_private_key(bytes: Seq<u8>) -> bool {
    bytes.len() == 32
}

/// Whether `bytes` are a structurally valid public key.
pub open spec fn valid_public_key(bytes: Seq<u8>) -> bool {
    bytes.len() == 32 && public_key_accepts(bytes)
}

/// Whether `bytes` are a structurally valid key of the given half.
pub open spec fn valid_key(part: KeyPart, bytes: Seq<u8>) -> bool {
    match part {
        KeyPart::Private => valid_private_key(bytes),
        KeyPart::Public => valid_public_key(bytes),
    }
}

/// The mathematical content of a [`KeyPair`].
pub struct KeyPairView {
    pub secret: Seq<u8>,
    pub public: Seq<u8>,
}

impl KeyPairView {
    /// The public half is the one derived from the private half. This holds
    /// of a generated keypair; decoding does not look for it.
    pub open spec fn is_matched(self) -> bool {
        self.public == derived_public_key(self.secret)
    }
}

/// An asymmetric signing keypair, held as the raw bytes of its two halves.
#[derive(Clone, Debug, PartialEq, Eq)]
pub struct KeyPair {
    secret: Vec<u8>,
    public: Vec<u8>,
}

impl View for KeyPair {
    type V = KeyPairView;

    closed spec fn view(&self) -> KeyPairView {
        KeyPairView { secret: self.secret@, public: self.public@ }
    }
}

/// What decoding two byte strings gives: the private half is judged first.
pub open spec fn decode_outcome(secret: Seq<u8>, public: Seq<u8>) -> Result<
    KeyPairView,
    ErrorView,
> {
    if !valid_private_key(secret) {
        Err(ErrorView::InvalidKeyEncoding { part: KeyPart::Private })
    } else if !valid_public_key(public) {
        Err(ErrorView::InvalidKeyEncoding { part: KeyPart::Public })
    } else {
        Ok(KeyPairView { secret, public })
    }
}

/// Whether `got` is the executable form of `want`.
pub open spec fn keypair_result_is(
    got: Result<KeyPair, Error>,
    want: Result<KeyPairView, ErrorView>,
) -> bool {
    match want {
        Ok(pair) => got matches Ok(k) && k@ == pair && k.wf(),
        Err(e) => got matches Err(x) && x@ == e,
    }
}

/// Turns the verdict on one half of a keypair into the library's terms:
/// the accepted bytes as they are, or `InvalidKeyEncoding` for that half.
pub fn checked_key(part: KeyPart, checked: Result<Vec<u8>, ed25519_dalek::SignatureError>) -> (r:
    Result<Vec<u8>, Error>)
    ensures
        r.is_ok() == checked.is_ok(),
        r matches Ok(v) ==> checked matches Ok(w) && v@ == w@,
        r matches Err(e) ==> e@ == (ErrorView::InvalidKeyEncoding { part }),
{
    match checked {
        Ok(v) => Ok(v),
        Err(_) => Err(Error::InvalidKeyEncoding { part }),
    }
}

/// Validates one half of a keypair and returns its bytes unchanged, or
/// `InvalidKeyEncoding` for that half.
pub fn decode_key(part: KeyPart, bytes: &[u8]) -> (r: Result<Vec<u8>, Error>)
    ensures
        r.is_ok() == valid_key(part, bytes@),
        r matches Ok(v) ==> v@ == bytes@,
        r matches Err(e) ==> e@ == (ErrorView::InvalidKeyEncoding { part }),
{
    match part {
        KeyPart::Private => checked_key(part, secret_key_from_bytes(bytes)),
        KeyPart::Public => checked_key(part, public_key_from_bytes(bytes)),
    }
}

impl KeyPair {
    /// Both halves are structurally valid keys.
    pub open spec fn wf(&self) -> bool {
        valid_private_key(self@.secret) && valid_public_key(self@.public)
    }

    /// The two byte strings that `encode` returns, private first.
    pub open spec fn encoding(&self) -> (Seq<u8>, Seq<u8>) {
        (self@.secret, self@.public)
    }

    /// Generates a fresh keypair from the operating system's random source.
    pub fn generate() -> (r: KeyPair)
        ensures
            r.wf(),
            r@.is_matched(),
    {
        let halves = generate_key_bytes();
        KeyPair { secret: halves.0, public: halves.1 }
    }

    /// Decodes a keypair from the contents of its two files. The private
    /// half is judged first; the halves are not checked against each other.
    pub fn decode(secret: &[u8], public: &[u8]) -> (r: Result<KeyPair, Error>)
        ensures
            keypair_result_is(r, decode_outcome(secret@, public@)),
    {
        let secret = match decode_key(KeyPart::Private, secret) {
            Ok(v) => v,
            Err(e) => { return Err(e); },
        };
        let public = match decode_key(KeyPart::Public, public) {
            Ok(v) => v,
            Err(e) => { return Err(e); },
        };
        Ok(KeyPair { secret, public })
    }

    /// Encodes the keypair as the contents of its two files, private first.
    pub fn encode(&self) -> (r: (Vec<u8>, Vec<u8>))
        ensures
            r.0@ == self.encoding().0,
            r.1@ == self.encoding().1,
    {
        (slice_to_vec(self.secret.as_slice()), slice_to_vec(self.public.as_slice()))
    }

    /// The bytes of one half.
    pub fn key_bytes(&self, part: KeyPart) -> (r: &[u8])
        ensures
            part == KeyPart::Private ==> r@ == self@.secret,
            part == KeyPart::Public ==> r@ == self@.public,
    {
        match part {
            KeyPart::Private => self.secret.as_slice(),
            KeyPart::Public => self.public.as_slice(),
        }
    }

    /// Decoding what `encode` gives returns the keypair itself, byte for
    /// byte.
    pub proof fn lemma_decode_encode_roundtrip(self)
        requires
            self.wf(),
        ensures
            decode_outcome(self.encoding().0, self.encoding().1) == Ok::<KeyPairView, ErrorView>(
                self@,
            ),
    {
    }

    /// Encoding a decoded keypair gives back the two byte strings that were
    /// decoded.
    pub proof fn lemma_encode_decode_roundtrip(secret: Seq<u8>, public: Seq<u8>)
        ensures
            decode_outcome(secret, public) matches Ok(pair) ==> pair.secret == secret
                && pair.public == public,
    {
    }
}

} // verus!
