//! The composite key types and the scheme-resolution algorithm.
use vstd::prelude::*;

use crate::crypto;
use crate::crypto::ed_pubkey_ok;
use crate::crypto::ed_public_of;
use crate::crypto::ed_sign_of;
use crate::crypto::ed_verify_of;
use crate::crypto::secp_pubkey_canon;
use crate::crypto::secp_pubkey_ok;
use crate::crypto::secp_pubkey_uncomp;
use crate::crypto::secp_public_of;
use crate::crypto::secp_secret_ok;
use crate::crypto::secp_sign_of;
use crate::crypto::secp_verify_of;
use vstd::string::StringExecFns;
use zeroize::Zeroize;

verus! {

/// The errors the library reports.  All are recoverable and returned to the
/// caller; no operation panics.
#[derive(Clone, Copy, Debug, PartialEq, Eq, Structural)]
pub enum KeyError {
    /// Raw secret or public bytes were malformed or out of range.
    InvalidKeyEncoding,
    /// The underlying primitive rejected a sign request.
    SignatureFailure,
    /// No reserved field of a record payload held a parseable public key.
    NoRecognizedScheme,
}

/// The sequence of `n` zero bytes: what a wiped buffer holds.
pub open spec fn zero_seq(n: nat) -> Seq<u8> {
    Seq::new(n, |i: int| 0u8)
}

/// A secret key for one of the supported signature schemes.  The active
/// variant never changes after construction, and the secret bytes are owned
/// exclusively by this value.
///
/// A well-formed key ([`CombinedKey::wf`]) is only created by generation or
/// import, which wipe every transient buffer before returning.
pub enum CombinedKey {
    /// A secp256k1 secret scalar, 32 bytes, nonzero and below the curve order.
    Secp256k1(Vec<u8>),
    /// An ed25519 secret, any 32 bytes.
    Ed25519(Vec<u8>),
}

/// A public key for one of the supported signature schemes, stored as its
/// compressed encoding.  Derived from a [`CombinedKey`] or resolved from a
/// record payload; it carries no secret material.
#[derive(Clone, Debug)]
pub enum CombinedPublicKey {
    /// A secp256k1 public key, as its 33-byte compressed encoding.
    Secp256k1(Vec<u8>),
    /// An ed25519 public key, as its 32-byte encoding.
    Ed25519(Vec<u8>),
}

/// Whether `import` of raw bytes succeeds for the given scheme: 32 bytes,
/// and for secp256k1 a scalar in the valid range.
pub open spec fn import_accepts(secp_scheme: bool, s: Seq<u8>) -> bool {
    s.len() == 32 && (secp_scheme ==> secp_secret_ok(s))
}

/// The verification outcome of `sig` on `m` under the public key whose
/// compressed encoding is `pk`, for the scheme selected by `secp_scheme`.
pub open spec fn scheme_verifies(secp_scheme: bool, pk: Seq<u8>, m: Seq<u8>, sig: Seq<u8>) -> bool {
    if secp_scheme {
        secp_verify_of(pk, m, sig)
    } else {
        ed_verify_of(pk, m, sig)
    }
}

impl CombinedKey {
    /// The raw secret bytes the key holds.
    pub open spec fn secret_view(self) -> Seq<u8> {
        match self {
            CombinedKey::Secp256k1(b) => b@,
            CombinedKey::Ed25519(b) => b@,
        }
    }

    /// Validity: the secret is a 32-byte encoding the key's scheme accepts.
    pub open spec fn wf(self) -> bool {
        import_accepts(self is Secp256k1, self.secret_view())
    }

    /// The compressed encoding of the public key this secret derives.
    pub open spec fn public_view(self) -> Seq<u8> {
        match self {
            CombinedKey::Secp256k1(b) => secp_public_of(b@),
            CombinedKey::Ed25519(b) => ed_public_of(b@),
        }
    }

    /// The signature this key produces on message `m`.
    pub open spec fn signature_view(self, m: Seq<u8>) -> Seq<u8> {
        match self {
            CombinedKey::Secp256k1(b) => secp_sign_of(b@, m),
            CombinedKey::Ed25519(b) => ed_sign_of(b@, m),
        }
    }

    /// Generates a fresh secp256k1 key from a cryptographically secure
    /// random source.  The primitive resamples until the drawn scalar lies
    /// in the valid range; the serialized scalar moves straight into the
    /// key, so no transient copy is left behind here.
    pub fn generate_secp256k1() -> (r: CombinedKey)
        ensures
            r.wf(),
            r is Secp256k1,
    {
        CombinedKey::Secp256k1(crypto::secp_random_secret())
    }

    /// Generates a fresh ed25519 key from a cryptographically secure random
    /// source; any 32 random bytes are a valid secret.  The sampling buffer
    /// moves into the key; no copy of it remains.
    pub fn generate_ed25519() -> (r: CombinedKey)
        ensures
            r.wf(),
            r is Ed25519,
    {
        let mut b: Vec<u8> = vec![0u8; 32];
        crypto::fill_random(&mut b);
        CombinedKey::Ed25519(b)
    }

    /// Imports a secp256k1 key from raw secret bytes.  Fails with
    /// [`KeyError::InvalidKeyEncoding`] exactly when the bytes are not a
    /// 32-byte scalar in the valid range.  On success and on failure alike,
    /// the input buffer is zero-filled before the function returns.
    pub fn secp256k1_from_bytes(bytes: &mut Vec<u8>) -> (r: Result<CombinedKey, KeyError>)
        ensures
            final(bytes)@ == zero_seq(old(bytes)@.len()),
            r is Ok <==> import_accepts(true, old(bytes)@),
            r matches Ok(k) ==> k.wf() && k is Secp256k1 && k.secret_view() == old(bytes)@,
            r matches Err(e) ==> e == KeyError::InvalidKeyEncoding,
    {
        if crypto::secp_secret_check(bytes) {
            let secret = copy_bytes(bytes);
            crypto::wipe(bytes);
            Ok(CombinedKey::Secp256k1(secret))
        } else {
            crypto::wipe(bytes);
            Err(KeyError::InvalidKeyEncoding)
        }
    }

    /// Imports an ed25519 key from raw secret bytes.  Fails with
    /// [`KeyError::InvalidKeyEncoding`] exactly when the buffer is not 32
    /// bytes long.  On success and on failure alike, the input buffer is
    /// zero-filled before the function returns.
    pub fn ed25519_from_bytes(bytes: &mut Vec<u8>) -> (r: Result<CombinedKey, KeyError>)
        ensures
            final(bytes)@ == zero_seq(old(bytes)@.len()),
            r is Ok <==> import_accepts(false, old(bytes)@),
            r matches Ok(k) ==> k.wf() && k is Ed25519 && k.secret_view() == old(bytes)@,
            r matches Err(e) ==> e == KeyError::InvalidKeyEncoding,
    {
        if bytes.len() == 32 {
            let secret = copy_bytes(bytes);
            crypto::wipe(bytes);
            Ok(CombinedKey::Ed25519(secret))
        } else {
            crypto::wipe(bytes);
            Err(KeyError::InvalidKeyEncoding)
        }
    }

    /// Signs a message for the v4 record scheme, dispatching on the key's
    /// active scheme.  Neither primitive rejects any input, so the result is
    /// always `Ok`, and the signature it carries verifies under the public
    /// key this secret derives.
    pub fn sign_v4(&self, msg: &[u8]) -> (r: Result<Vec<u8>, KeyError>)
        requires
            self.wf(),
        ensures
            r is Ok,
            r matches Ok(sig) ==> {
                &&& sig@ == self.signature_view(msg@)
                &&& scheme_verifies(self is Secp256k1, self.public_view(), msg@, sig@)
            },
    {
        match self {
            CombinedKey::Secp256k1(b) => Ok(crypto::secp_sign(b, msg)),
            CombinedKey::Ed25519(b) => Ok(crypto::ed_sign(b, msg)),
        }
    }

    /// Derives the public key matching the active scheme.  The derivation is
    /// a pure function of the secret: two calls on the same key give the
    /// same public key.
    pub fn public(&self) -> (r: CombinedPublicKey)
        requires
            self.wf(),
        ensures
            r.wf(),
            r is Secp256k1 <==> self is Secp256k1,
            r.encoded_view() == self.public_view(),
    {
        match self {
            CombinedKey::Secp256k1(b) => CombinedPublicKey::Secp256k1(
                crypto::secp_derive_public(b),
            ),
            CombinedKey::Ed25519(b) => CombinedPublicKey::Ed25519(crypto::ed_derive_public(b)),
        }
    }

    /// Returns the scheme's canonical raw secret encoding: the 32 scalar
    /// bytes for secp256k1, the 32 raw bytes for ed25519.
    ///
    /// This exposes secret material.  The caller owns the returned buffer
    /// and should erase it when done with it.
    pub fn encode(&self) -> (r: Vec<u8>)
        ensures
            r@ == self.secret_view(),
    {
        match self {
            CombinedKey::Secp256k1(b) => copy_bytes(b),
            CombinedKey::Ed25519(b) => copy_bytes(b),
        }
    }

    /// Recovers a public key from an untyped record payload.
    ///
    /// The schemes are tried in a fixed, documented order: first the bytes
    /// under secp256k1's reserved field name, then the bytes under
    /// ed25519's.  The first field that parses wins; a payload carrying both
    /// yields the secp256k1 key.  Fails with
    /// [`KeyError::NoRecognizedScheme`] exactly when neither field is
    /// present and parseable.
    pub fn enr_to_public(content: &RecordPayload) -> (r: Result<CombinedPublicKey, KeyError>)
        ensures
            r is Ok <==> resolved_view(content.entries@) is Some,
            r matches Ok(pk) ==> {
                &&& pk.wf()
                &&& resolved_view(content.entries@) == Some(
                    (pk is Secp256k1, pk.encoded_view()),
                )
            },
            r matches Err(e) ==> e == KeyError::NoRecognizedScheme,
    {
        let secp_name = String::from_str("secp256k1");
        proof {
            reveal_strlit("secp256k1");
            reveal_strlit("ed25519");
        }
        match content.get(&secp_name) {
            Some(bytes) => {
                match crypto::secp_decode_public(bytes) {
                    Some(enc) => {
                        return Ok(CombinedPublicKey::Secp256k1(enc));
                    },
                    None => {},
                }
            },
            None => {},
        }
        let ed_name = String::from_str("ed25519");
        match content.get(&ed_name) {
            Some(bytes) => {
                if bytes.len() == 32 {
                    if crypto::ed_check_public(bytes) {
                        return Ok(CombinedPublicKey::Ed25519(copy_bytes(bytes)));
                    }
                }
            },
            None => {},
        }
        Err(KeyError::NoRecognizedScheme)
    }
}

impl Drop for CombinedKey {
    /// Relies on `zeroize::Zeroize` for byte slices: the secret bytes are
    /// overwritten with zeros when the key is released, through writes the
    /// compiler will not elide.
    #[verifier::external_body]
    fn drop(&mut self)
        opens_invariants none
        no_unwind
    {
        match self {
            CombinedKey::Secp256k1(b) => b.as_mut_slice().zeroize(),
            CombinedKey::Ed25519(b) => b.as_mut_slice().zeroize(),
        }
    }
}

impl CombinedPublicKey {
    /// The compressed encoding the key stores.
    pub open spec fn encoded_view(self) -> Seq<u8> {
        match self {
            CombinedPublicKey::Secp256k1(b) => b@,
            CombinedPublicKey::Ed25519(b) => b@,
        }
    }

    /// Validity: the stored bytes are the scheme's compressed encoding of a
    /// parseable public key.
    pub open spec fn wf(self) -> bool {
        match self {
            CombinedPublicKey::Secp256k1(b) => {
                &&& b@.len() == 33
                &&& secp_pubkey_ok(b@)
                &&& secp_pubkey_canon(b@) == b@
            },
            CombinedPublicKey::Ed25519(b) => b@.len() == 32 && ed_pubkey_ok(b@),
        }
    }

    /// The verification outcome this key gives for `sig` on `m`.
    pub open spec fn verify_view(self, m: Seq<u8>, sig: Seq<u8>) -> bool {
        scheme_verifies(self is Secp256k1, self.encoded_view(), m, sig)
    }

    /// The uncompressed encoding: 65 bytes for secp256k1; ed25519 has no
    /// native uncompressed form, so its compressed encoding stands.
    pub open spec fn uncompressed_view(self) -> Seq<u8> {
        match self {
            CombinedPublicKey::Secp256k1(b) => secp_pubkey_uncomp(b@),
            CombinedPublicKey::Ed25519(b) => b@,
        }
    }

    /// The reserved record field name of the key's scheme.
    pub open spec fn tag_view(self) -> Seq<char> {
        if self is Secp256k1 {
            "secp256k1"@
        } else {
            "ed25519"@
        }
    }

    /// Verifies a raw message against signature bytes, dispatching on the
    /// key's scheme.  A well-formed-but-incorrect signature gives `false`,
    /// and malformed signature bytes give `false` as well; the call never
    /// fails.
    pub fn verify_v4(&self, msg: &[u8], sig: &[u8]) -> (r: bool)
        requires
            self.wf(),
        ensures
            r == self.verify_view(msg@, sig@),
    {
        match self {
            CombinedPublicKey::Secp256k1(pk) => crypto::secp_verify(pk, msg, sig),
            CombinedPublicKey::Ed25519(pk) => crypto::ed_verify(pk, msg, sig),
        }
    }

    /// Encodes the public key into its scheme-canonical compressed form.
    pub fn encode(&self) -> (r: Vec<u8>)
        ensures
            r@ == self.encoded_view(),
    {
        match self {
            CombinedPublicKey::Secp256k1(pk) => copy_bytes(pk),
            CombinedPublicKey::Ed25519(pk) => copy_bytes(pk),
        }
    }

    /// Encodes the public key in uncompressed form.
    pub fn encode_uncompressed(&self) -> (r: Vec<u8>)
        requires
            self.wf(),
        ensures
            r@ == self.uncompressed_view(),
    {
        match self {
            CombinedPublicKey::Secp256k1(pk) => crypto::secp_encode_uncompressed(pk),
            CombinedPublicKey::Ed25519(pk) => copy_bytes(pk),
        }
    }

    /// The canonical scheme identifier: the reserved field name under which
    /// this key is embedded in a record.
    pub fn enr_key(&self) -> (r: String)
        ensures
            r@ == self.tag_view(),
    {
        match self {
            CombinedPublicKey::Secp256k1(_) => String::from_str("secp256k1"),
            CombinedPublicKey::Ed25519(_) => String::from_str("ed25519"),
        }
    }
}

impl PartialEq for CombinedPublicKey {
    /// Two public keys are equal when they are of the same scheme and store
    /// the same encoding.
    fn eq(&self, other: &Self) -> (r: bool) {
        match (self, other) {
            (CombinedPublicKey::Secp256k1(a), CombinedPublicKey::Secp256k1(b)) => bytes_eq(a, b),
            (CombinedPublicKey::Ed25519(a), CombinedPublicKey::Ed25519(b)) => bytes_eq(a, b),
            _ => false,
        }
    }
}

impl vstd::std_specs::cmp::PartialEqSpecImpl for CombinedPublicKey {
    open spec fn obeys_eq_spec() -> bool {
        true
    }

    open spec fn eq_spec(&self, other: &Self) -> bool {
        (*self is Secp256k1 <==> *other is Secp256k1) && self.encoded_view()
            == other.encoded_view()
    }
}

/// The decoded content of a signed record prior to interpretation: an
/// ordered mapping from field-name strings to byte strings.  The resolver
/// reads its reserved fields and never mutates it.  Where a name repeats,
/// the first entry is the one read.
pub struct RecordPayload {
    /// The fields, in record order.
    pub entries: Vec<(String, Vec<u8>)>,
}

/// The byte string under the first entry named `name`, if any.
pub open spec fn lookup_view(entries: Seq<(String, Vec<u8>)>, name: Seq<char>) -> Option<Seq<u8>>
    decreases entries.len(),
{
    if entries.len() == 0 {
        None
    } else if entries[0].0@ == name {
        Some(entries[0].1@)
    } else {
        lookup_view(entries.skip(1), name)
    }
}

/// What the resolver recovers from a payload: the winning scheme (`true`
/// for secp256k1) and the key's compressed encoding, or `None` when neither
/// reserved field holds a parseable key.  secp256k1 is tried first; its
/// stored bytes are re-encoded to the canonical compressed form.
pub open spec fn resolved_view(entries: Seq<(String, Vec<u8>)>) -> Option<(bool, Seq<u8>)> {
    let secp_field = lookup_view(entries, "secp256k1"@);
    let ed_field = lookup_view(entries, "ed25519"@);
    if secp_field is Some && secp_pubkey_ok(secp_field->Some_0) {
        Some((true, secp_pubkey_canon(secp_field->Some_0)))
    } else if ed_field is Some && ed_field->Some_0.len() == 32 && ed_pubkey_ok(ed_field->Some_0) {
        Some((false, ed_field->Some_0))
    } else {
        None
    }
}

impl RecordPayload {
    /// Returns the byte string under the first entry named `name`, if any.
    pub fn get<'a>(&'a self, name: &String) -> (r: Option<&'a Vec<u8>>)
        ensures
            match r {
                Some(v) => lookup_view(self.entries@, name@) == Some(v@),
                None => lookup_view(self.entries@, name@) is None,
            },
    {
        let n = self.entries.len();
        let mut i: usize = 0;
        proof {
            assert(self.entries@.skip(0) =~= self.entries@);
        }
        while i < n
            invariant
                i <= n,
                n == self.entries@.len(),
                lookup_view(self.entries@, name@) == lookup_view(
                    self.entries@.skip(i as int),
                    name@,
                ),
            decreases n - i,
        {
            if self.entries[i].0 == *name {
                proof {
                    assert(self.entries@.skip(i as int)[0] == self.entries@[i as int]);
                }
                return Some(&self.entries[i].1);
            }
            proof {
                assert(self.entries@.skip(i as int).skip(1) =~= self.entries@.skip(i as int + 1));
                assert(self.entries@.skip(i as int)[0] == self.entries@[i as int]);
            }
            i = i + 1;
        }
        proof {
            assert(self.entries@.skip(i as int).len() == 0);
        }
        None
    }
}

/// Copies a byte buffer element by element.
pub(crate) fn copy_bytes(src: &Vec<u8>) -> (r: Vec<u8>)
    ensures
        r@ == src@,
{
    let mut out: Vec<u8> = Vec::new();
    let mut i: usize = 0;
    while i < src.len()
        invariant
            i <= src@.len(),
            out@ == src@.subrange(0, i as int),
        decreases src@.len() - i,
    {
        out.push(src[i]);
        proof {
            assert(out@ =~= src@.subrange(0, i as int + 1));
        }
        i = i + 1;
    }
    proof {
        assert(out@ =~= src@);
    }
    out
}

/// Compares two byte buffers for equality of contents.
pub(crate) fn bytes_eq(a: &Vec<u8>, b: &Vec<u8>) -> (r: bool)
    ensures
        r == (a@ == b@),
{
    if a.len() != b.len() {
        return false;
    }
    let mut i: usize = 0;
    while i < a.len()
        invariant
            a@.len() == b@.len(),
            i <= a@.len(),
            forall|j: int| 0 <= j < i ==> a@[j] == b@[j],
        decreases a@.len() - i,
    {
        if a[i] != b[i] {
            return false;
        }
        i = i + 1;
    }
    proof {
        assert(a@ =~= b@);
    }
    true
}

} // verus!
