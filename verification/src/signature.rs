//! Signature checks against a signer's DID document.
use vstd::prelude::*;
use crate::bytes::{opt_slice_view, opt_view};

verus! {

/// The identifier of `document`, where `token` is a compact JWS whose
/// signature verifies against a key of that document and whose protected
/// header carries exactly the nonce `nonce`; `None` otherwise. `payload` is
/// the signed data where the token leaves it out.
pub uninterp spec fn verified_signer(
    document: Seq<u8>,
    token: Seq<u8>,
    payload: Option<Seq<u8>>,
    nonce: Option<Seq<u8>>,
) -> Option<Seq<u8>>;

/// `IotaDocument::from_json_slice`, then `IotaDocument::verify_jws` with
/// the EdDSA verifier of `identity_eddsa_verifier`, the expected nonce set
/// in the options and `payload` handed on as the detached payload, then the
/// document's `id`. The answer depends on the four arguments alone: a
/// document or token that cannot be read, a key that the document does not
/// hold, another nonce or a signature that does not verify give `None`.
#[verifier::external_body]
pub(crate) fn jws_signer(
    document: &[u8],
    token: &[u8],
    payload: Option<&[u8]>,
    nonce: Option<&[u8]>,
) -> (r: Option<Vec<u8>>)
    ensures
        opt_view(r) == verified_signer(document@, token@, opt_slice_view(payload), opt_slice_view(nonce)),
{
    let doc = <identity_iota::iota::IotaDocument as identity_iota::core::FromJson>::from_json_slice(document).ok()?;
    let jws = identity_iota::credential::Jws::new(core::str::from_utf8(token).ok()?.to_owned());
    let mut options = identity_iota::document::verifiable::JwsVerificationOptions::default();
    if let Some(expected) = nonce {
        options = options.nonce(core::str::from_utf8(expected).ok()?);
    }
    doc.verify_jws(&jws, payload, &identity_eddsa_verifier::EdDSAJwsVerifier::default(), &options).ok()?;
    Some(doc.id().to_string().into_bytes())
}

} // verus!
