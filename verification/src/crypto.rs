//! Trusted boundary around the outside cryptographic primitives.
//!
//! Every call the library makes into an outside crate goes through one of the
//! wrappers below.  Each wrapper's contract states only what the crate's own
//! source shows; results that would take pages to state (a derived public
//! key, a signature) are given an uninterpreted name instead, so that the
//! callers' contracts can still be exact.
use vstd::prelude::*;

use ed25519_dalek::Signer;
use ed25519_dalek::Verifier;
use rand::RngCore;
use sha3::Digest;
use zeroize::Zeroize;

verus! {

/// Whether 32 raw bytes are a valid secp256k1 secret scalar: nonzero and
/// below the curve order.  Names the success of `libsecp256k1::SecretKey::parse`.
pub uninterp spec fn secp_secret_ok(s: Seq<u8>) -> bool;

/// The 33-byte compressed public key derived from a valid secp256k1 secret.
/// Names `libsecp256k1::PublicKey::from_secret_key` followed by
/// `serialize_compressed`.
pub uninterp spec fn secp_public_of(s: Seq<u8>) -> Seq<u8>;

/// The 64-byte compact signature of the v4 identity scheme: the message is
/// keccak256-hashed, then ECDSA-signed with a deterministic nonce.  Names
/// `libsecp256k1::sign` on the keccak256 digest of the message.
pub uninterp spec fn secp_sign_of(s: Seq<u8>, m: Seq<u8>) -> Seq<u8>;

/// The outcome of v4 verification of `sig` on message `m` under the public
/// key whose compressed encoding is `pk`.  Names `libsecp256k1::verify` on
/// the keccak256 digest, with `false` for signature bytes that do not parse.
pub uninterp spec fn secp_verify_of(pk: Seq<u8>, m: Seq<u8>, sig: Seq<u8>) -> bool;

/// Whether the bytes encode a secp256k1 public key in any accepted format
/// (compressed, full, or raw).  Names the success of
/// `libsecp256k1::PublicKey::parse_slice`.
pub uninterp spec fn secp_pubkey_ok(s: Seq<u8>) -> bool;

/// The canonical 33-byte compressed re-encoding of an encoded secp256k1
/// public key.  Names `libsecp256k1::PublicKey::serialize_compressed` on the
/// parsed key.
pub uninterp spec fn secp_pubkey_canon(s: Seq<u8>) -> Seq<u8>;

/// The 65-byte uncompressed encoding of the public key whose compressed
/// encoding is `pk`.  Names `libsecp256k1::PublicKey::serialize`.
pub uninterp spec fn secp_pubkey_uncomp(pk: Seq<u8>) -> Seq<u8>;

/// The 32-byte ed25519 public key derived from a 32-byte secret.  Names
/// `ed25519_dalek::SigningKey::from_bytes` followed by `verifying_key`.
pub uninterp spec fn ed_public_of(s: Seq<u8>) -> Seq<u8>;

/// The 64-byte ed25519 signature of `m` under the 32-byte secret `s`.
/// Names `ed25519_dalek::SigningKey::sign`; ed25519 signing is deterministic.
pub uninterp spec fn ed_sign_of(s: Seq<u8>, m: Seq<u8>) -> Seq<u8>;

/// The outcome of ed25519 verification of `sig` on `m` under the 32-byte
/// public key `pk`.  Names `ed25519_dalek::VerifyingKey::verify`, with
/// `false` for signature bytes that do not parse.
pub uninterp spec fn ed_verify_of(pk: Seq<u8>, m: Seq<u8>, sig: Seq<u8>) -> bool;

/// Whether 32 bytes encode a valid ed25519 public key point.  Names the
/// success of `ed25519_dalek::VerifyingKey::from_bytes`.
pub uninterp spec fn ed_pubkey_ok(s: Seq<u8>) -> bool;

/// Relies on `libsecp256k1::SecretKey::parse_slice`: it succeeds exactly on
/// 32-byte inputs whose scalar is nonzero and below the curve order.
#[verifier::external_body]
pub(crate) fn secp_secret_check(b: &Vec<u8>) -> (r: bool)
    ensures
        r == (b@.len() == 32 && secp_secret_ok(b@)),
{
    libsecp256k1::SecretKey::parse_slice(b.as_slice()).is_ok()
}

/// Relies on `libsecp256k1::PublicKey::from_secret_key` and
/// `serialize_compressed`: the derived key is a function of the secret alone,
/// its compressed encoding is 33 bytes and parses back with `parse_slice`.
#[verifier::external_body]
pub(crate) fn secp_derive_public(b: &Vec<u8>) -> (r: Vec<u8>)
    requires
        b@.len() == 32,
        secp_secret_ok(b@),
    ensures
        r@ == secp_public_of(b@),
        r@.len() == 33,
        secp_pubkey_ok(r@),
        secp_pubkey_canon(r@) == r@,
{
    let sk = libsecp256k1::SecretKey::parse_slice(b.as_slice()).unwrap();
    let pk = libsecp256k1::PublicKey::from_secret_key(&sk);
    pk.serialize_compressed().to_vec()
}

/// Relies on `libsecp256k1::sign` over the keccak256 digest of the message
/// (`sha3::Keccak256`): the 64-byte compact signature is deterministic in the
/// secret and the message, and `libsecp256k1::verify` accepts it under the
/// public key derived from the same secret.
#[verifier::external_body]
pub(crate) fn secp_sign(b: &Vec<u8>, msg: &[u8]) -> (r: Vec<u8>)
    requires
        b@.len() == 32,
        secp_secret_ok(b@),
    ensures
        r@ == secp_sign_of(b@, msg@),
        r@.len() == 64,
        secp_verify_of(secp_public_of(b@), msg@, r@),
{
    let sk = libsecp256k1::SecretKey::parse_slice(b.as_slice()).unwrap();
    let digest: [u8; 32] = sha3::Keccak256::digest(msg).into();
    let m = libsecp256k1::Message::parse(&digest);
    let (sig, _) = libsecp256k1::sign(&m, &sk);
    sig.serialize().to_vec()
}

/// Relies on `libsecp256k1::Signature::parse_standard_slice` and
/// `libsecp256k1::verify` over the keccak256 digest of the message: the
/// outcome is a function of the key encoding, the message and the signature
/// bytes, and signature bytes that do not parse verify as `false`.
#[verifier::external_body]
pub(crate) fn secp_verify(pk: &Vec<u8>, msg: &[u8], sig: &[u8]) -> (r: bool)
    requires
        pk@.len() == 33,
        secp_pubkey_ok(pk@),
    ensures
        r == secp_verify_of(pk@, msg@, sig@),
{
    let key = libsecp256k1::PublicKey::parse_slice(pk.as_slice(), None).unwrap();
    match libsecp256k1::Signature::parse_standard_slice(sig) {
        Ok(s) => {
            let digest: [u8; 32] = sha3::Keccak256::digest(msg).into();
            libsecp256k1::verify(&libsecp256k1::Message::parse(&digest), &s, &key)
        }
        Err(_) => false,
    }
}

/// Relies on `libsecp256k1::PublicKey::parse_slice` and
/// `serialize_compressed`: parsing succeeds exactly on valid encodings, and
/// re-encoding the parsed key gives its canonical 33-byte compressed form,
/// which itself parses and re-encodes to itself.
#[verifier::external_body]
pub(crate) fn secp_decode_public(b: &Vec<u8>) -> (r: Option<Vec<u8>>)
    ensures
        r is Some <==> secp_pubkey_ok(b@),
        r matches Some(enc) ==> {
            &&& enc@ == secp_pubkey_canon(b@)
            &&& enc@.len() == 33
            &&& secp_pubkey_ok(enc@)
            &&& secp_pubkey_canon(enc@) == enc@
        },
{
    match libsecp256k1::PublicKey::parse_slice(b.as_slice(), None) {
        Ok(pk) => Some(pk.serialize_compressed().to_vec()),
        Err(_) => None,
    }
}

/// Relies on `libsecp256k1::PublicKey::parse_slice` and `serialize`: the
/// 65-byte uncompressed encoding is a function of the key alone.
#[verifier::external_body]
pub(crate) fn secp_encode_uncompressed(pk: &Vec<u8>) -> (r: Vec<u8>)
    requires
        pk@.len() == 33,
        secp_pubkey_ok(pk@),
    ensures
        r@ == secp_pubkey_uncomp(pk@),
        r@.len() == 65,
{
    let key = libsecp256k1::PublicKey::parse_slice(pk.as_slice(), None).unwrap();
    key.serialize().to_vec()
}

/// Relies on `ed25519_dalek::SigningKey::from_bytes` (any 32 bytes are a
/// valid secret) and `verifying_key`: the 32-byte public key is a function of
/// the secret alone and parses back with `VerifyingKey::from_bytes`.
#[verifier::external_body]
pub(crate) fn ed_derive_public(b: &Vec<u8>) -> (r: Vec<u8>)
    requires
        b@.len() == 32,
    ensures
        r@ == ed_public_of(b@),
        r@.len() == 32,
        ed_pubkey_ok(r@),
{
    let arr: [u8; 32] = b.as_slice().try_into().unwrap();
    let sk = ed25519_dalek::SigningKey::from_bytes(&arr);
    sk.verifying_key().to_bytes().to_vec()
}

/// Relies on `ed25519_dalek::SigningKey::sign`: ed25519 signing is
/// deterministic, the signature is 64 bytes, and
/// `ed25519_dalek::VerifyingKey::verify` accepts it under the public key
/// derived from the same secret.
#[verifier::external_body]
pub(crate) fn ed_sign(b: &Vec<u8>, msg: &[u8]) -> (r: Vec<u8>)
    requires
        b@.len() == 32,
    ensures
        r@ == ed_sign_of(b@, msg@),
        r@.len() == 64,
        ed_verify_of(ed_public_of(b@), msg@, r@),
{
    let arr: [u8; 32] = b.as_slice().try_into().unwrap();
    let sk = ed25519_dalek::SigningKey::from_bytes(&arr);
    sk.sign(msg).to_bytes().to_vec()
}

/// Relies on `ed25519_dalek::Signature::from_slice` and
/// `VerifyingKey::verify`: the outcome is a function of the key bytes, the
/// message and the signature bytes, and signature bytes that do not parse
/// verify as `false`.
#[verifier::external_body]
pub(crate) fn ed_verify(pk: &Vec<u8>, msg: &[u8], sig: &[u8]) -> (r: bool)
    requires
        pk@.len() == 32,
        ed_pubkey_ok(pk@),
    ensures
        r == ed_verify_of(pk@, msg@, sig@),
{
    let arr: [u8; 32] = pk.as_slice().try_into().unwrap();
    let key = ed25519_dalek::VerifyingKey::from_bytes(&arr).unwrap();
    match ed25519_dalek::Signature::from_slice(sig) {
        Ok(s) => key.verify(msg, &s).is_ok(),
        Err(_) => false,
    }
}

/// Relies on `ed25519_dalek::VerifyingKey::from_bytes`: it succeeds exactly
/// when the 32 bytes encode a valid curve point.
#[verifier::external_body]
pub(crate) fn ed_check_public(b: &Vec<u8>) -> (r: bool)
    requires
        b@.len() == 32,
    ensures
        r == ed_pubkey_ok(b@),
{
    let arr: [u8; 32] = b.as_slice().try_into().unwrap();
    ed25519_dalek::VerifyingKey::from_bytes(&arr).is_ok()
}

/// Relies on `rand::thread_rng` and `RngCore::fill_bytes`: the buffer keeps
/// its length; nothing is assumed of the bytes a cryptographically secure
/// source produces.
#[verifier::external_body]
pub(crate) fn fill_random(buf: &mut Vec<u8>)
    ensures
        final(buf)@.len() == old(buf)@.len(),
{
    rand::thread_rng().fill_bytes(buf.as_mut_slice());
}

/// Relies on `libsecp256k1::SecretKey::random` over `rand::thread_rng`: it
/// draws 32 random bytes and resamples until they parse as a valid scalar,
/// so the serialized result is a valid secret; nothing more is assumed of a
/// random value.
#[verifier::external_body]
pub(crate) fn secp_random_secret() -> (r: Vec<u8>)
    ensures
        r@.len() == 32,
        secp_secret_ok(r@),
{
    let sk = libsecp256k1::SecretKey::random(&mut rand::thread_rng());
    sk.serialize().to_vec()
}

/// Relies on `zeroize::Zeroize` for byte slices: every byte of the buffer is
/// set to zero, through writes the compiler will not elide.
#[verifier::external_body]
pub(crate) fn wipe(buf: &mut Vec<u8>)
    ensures
        final(buf)@ == Seq::new(old(buf)@.len(), |i: int| 0u8),
{
    buf.as_mut_slice().zeroize();
}

} // verus!
