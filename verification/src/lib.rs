//! Composite signing keys for signed peer-discovery records.
//!
//! A node identity must support more than one signature scheme while callers
//! manipulate a single uniform key type.  [`CombinedKey`] multiplexes over the
//! two supported schemes — secp256k1 (the "v4" identity scheme) and ed25519 —
//! and offers generation, import with guaranteed erasure of the input buffer,
//! raw export, and signing.  [`CombinedPublicKey`] is the matching public side:
//! verification, the compressed and uncompressed encodings, and the scheme's
//! reserved record field name.  [`CombinedKey::enr_to_public`] recovers a
//! public key from an untyped record payload, trying the schemes in a fixed
//! order.
//!
//! The elliptic-curve arithmetic itself is supplied by outside primitives and
//! is not re-implemented here; every call into one stands behind a small
//! trusted declaration in [`crypto`].
pub mod crypto;

mod combined;
mod laws;

pub use combined::CombinedKey;
pub use combined::CombinedPublicKey;
pub use combined::KeyError;
pub use combined::RecordPayload;
pub use combined::import_accepts;
pub use combined::lookup_view;
pub use combined::resolved_view;
pub use combined::scheme_verifies;
pub use combined::zero_seq;
pub use laws::lemma_export_import_round_trip;
pub use laws::lemma_resolver_scheme_order;
