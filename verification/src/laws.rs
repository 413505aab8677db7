//! The library-wide laws, stated and proved over the spec functions the
//! public contracts use.
use vstd::prelude::*;

use crate::combined::CombinedKey;
use crate::combined::import_accepts;
use crate::combined::lookup_view;
use crate::combined::resolved_view;
use crate::crypto::ed_pubkey_ok;
use crate::crypto::secp_pubkey_canon;
use crate::crypto::secp_pubkey_ok;

verus! {

/// Export/import round trip.  The raw secret a well-formed key exports is
/// accepted by the import of the key's own scheme, and any key of that
/// scheme reconstructed from those bytes derives exactly the public key the
/// original derives.
pub proof fn lemma_export_import_round_trip(k: CombinedKey, imported: CombinedKey)
    requires
        k.wf(),
        imported.wf(),
        (imported is Secp256k1) <==> (k is Secp256k1),
        imported.secret_view() == k.secret_view(),
    ensures
        import_accepts(k is Secp256k1, k.secret_view()),
        imported.public_view() == k.public_view(),
{
}

/// Resolver precedence.  A payload whose secp256k1 reserved field holds a
/// parseable key resolves to that key, whatever else the payload carries; a
/// payload without one but whose ed25519 reserved field holds a parseable
/// key resolves to the ed25519 key; a payload with neither fails to resolve.
pub proof fn lemma_resolver_scheme_order(entries: Seq<(String, Vec<u8>)>)
    ensures
        ({
            let f = lookup_view(entries, "secp256k1"@);
            f is Some && secp_pubkey_ok(f->Some_0)
        }) ==> resolved_view(entries) == Some(
            (true, secp_pubkey_canon(lookup_view(entries, "secp256k1"@)->Some_0)),
        ),
        ({
            let f = lookup_view(entries, "secp256k1"@);
            !(f is Some && secp_pubkey_ok(f->Some_0))
        } && {
            let g = lookup_view(entries, "ed25519"@);
            g is Some && g->Some_0.len() == 32 && ed_pubkey_ok(g->Some_0)
        }) ==> resolved_view(entries) == Some(
            (false, lookup_view(entries, "ed25519"@)->Some_0),
        ),
        ({
            let f = lookup_view(entries, "secp256k1"@);
            !(f is Some && secp_pubkey_ok(f->Some_0))
        } && {
            let g = lookup_view(entries, "ed25519"@);
            !(g is Some && g->Some_0.len() == 32 && ed_pubkey_ok(g->Some_0))
        }) ==> resolved_view(entries) is None,
{
}

} // verus!
