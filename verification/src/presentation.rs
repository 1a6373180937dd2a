//! Verifiable presentations: a holder's signed wrapper around its
//! credential, bound to the verifier's challenge.
use vstd::prelude::*;
use crate::bytes::{as_opt_slice, ascii, bytes_eq, literal, opt_slice_view, opt_view, to_vec};
use crate::challenge::{Challenge, ChallengeView};
use crate::clock::clock_unix;
use crate::credential::{
    credential_signer,
    signer_of_credential,
    validate_signed_by,
    validation_result,
    Credential,
    CredentialView,
};
use crate::did::{canonical_did, parse_did};
use crate::error::ValidationError;
use crate::signable::{opt_proof_view, Proof, ProofOptions, ProofView};
use crate::signature::{jws_signer, verified_signer};

verus! {

/// A holder's wrapper around the credentials it presents.
#[derive(Clone, Debug, PartialEq, Eq)]
pub struct Presentation {
    /// The presenter's identifier.
    pub holder: Vec<u8>,
    /// The credentials presented; this protocol accepts exactly one.
    pub credentials: Vec<Credential>,
    /// The holder's proof, absent while the presentation is unsigned.
    pub proof: Option<Proof>,
}

/// Mathematical content of a [`Presentation`].
pub struct PresentationView {
    pub holder: Seq<u8>,
    pub credentials: Seq<CredentialView>,
    pub proof: Option<ProofView>,
}

impl View for Presentation {
    type V = PresentationView;

    open spec fn view(&self) -> PresentationView {
        PresentationView {
            holder: self.holder@,
            credentials: Seq::new(self.credentials@.len(), |i: int| self.credentials@[i]@),
            proof: opt_proof_view(self.proof),
        }
    }
}

impl PresentationView {
    /// The presentation with `token` as the signed form that its proof
    /// carries; an unsigned presentation stays unsigned.
    pub open spec fn presented_as(self, token: Seq<u8>) -> PresentationView {
        PresentationView {
            proof: match self.proof {
                Some(p) => Some(ProofView { value: token, ..p }),
                None => None,
            },
            ..self
        }
    }

    /// The proof binds the nonce `nonce`.
    pub open spec fn binds(self, nonce: Seq<u8>) -> bool {
        self.proof matches Some(p) && p.challenge == Some(nonce)
    }

    /// The proof carries an expiry that has passed at `now`.
    pub open spec fn proof_expired_at(self, now: int) -> bool {
        self.proof matches Some(p) && p.expires matches Some(e) && now > e
    }
}

/// Who signed the one credential of a presentation, judged against the
/// issuer's document; nobody where the presentation does not carry exactly
/// one credential.
pub open spec fn presented_credential_signer(vp: PresentationView, issuer_document: Seq<u8>) -> Option<
    Seq<u8>,
> {
    if vp.credentials.len() == 1 {
        credential_signer(vp.credentials[0], issuer_document)
    } else {
        None
    }
}

/// Who signed a presentation, judged against the holder's document: the
/// identifier of that document where the presentation's token verifies
/// against it and binds `nonce`; nobody where it does not, where the
/// presentation is unsigned, or where the holder has no document.
pub open spec fn presentation_signer(
    vp: PresentationView,
    nonce: Seq<u8>,
    holder_document: Option<Seq<u8>>,
) -> Option<Seq<u8>> {
    match (vp.proof, holder_document) {
        (Some(proof), Some(document)) => verified_signer(document, proof.value, None, Some(nonce)),
        _ => None,
    }
}

/// The outcome of checking a presentation against the challenge that the
/// verifier issued, as of `now`, given whose signatures the credential and
/// the presentation were found to carry.
///
/// The checks run in this order and the first violation is the result: one
/// credential exactly; a proof that binds the issued nonce; challenge and
/// proof not lapsed; the credential valid and signed by its issuer; the
/// presentation signed by its holder; the holder being the credential's
/// subject.
pub open spec fn presentation_result(
    vp: PresentationView,
    challenge: ChallengeView,
    credential_signer: Option<Seq<u8>>,
    presentation_signer: Option<Seq<u8>>,
    now: int,
) -> Result<(), ValidationError> {
    if vp.credentials.len() > 1 {
        Err(ValidationError::MultiCredentialUnsupported)
    } else if vp.credentials.len() == 0 {
        Err(ValidationError::Malformed)
    } else if !vp.binds(challenge.nonce) {
        Err(ValidationError::BadSignature)
    } else if now > challenge.expiry || vp.proof_expired_at(now) {
        Err(ValidationError::Expired)
    } else if validation_result(vp.credentials[0], credential_signer, now) is Err {
        validation_result(vp.credentials[0], credential_signer, now)
    } else if presentation_signer != Some(vp.holder) {
        Err(ValidationError::BadSignature)
    } else if !vp.credentials[0].only_about(vp.holder) {
        Err(ValidationError::SubjectMismatch)
    } else {
        Ok(())
    }
}

impl Presentation {
    /// The presentation with `token` as the signed form that its proof
    /// carries; an unsigned presentation stays unsigned.
    pub fn presented_as(self, token: Vec<u8>) -> (r: Presentation)
        ensures
            r@ == self@.presented_as(token@),
    {
        let Presentation { holder, credentials, proof: carried } = self;
        let replaced = match carried {
            Some(p) => {
                let Proof { method, challenge, expires, value: _ } = p;
                Some(Proof { method, challenge, expires, value: token })
            },
            None => None,
        };
        Presentation { holder, credentials, proof: replaced }
    }

    /// Whether the proof binds `nonce`.
    pub fn binds(&self, nonce: &[u8]) -> (r: bool)
        ensures
            r == self@.binds(nonce@),
    {
        match &self.proof {
            Some(p) => match &p.challenge {
                Some(c) => bytes_eq(c.as_slice(), nonce),
                None => false,
            },
            None => false,
        }
    }

    /// Whether the proof carries an expiry that has passed at `now`.
    pub fn proof_expired_at(&self, now: i64) -> (r: bool)
        ensures
            r == self@.proof_expired_at(now as int),
    {
        match &self.proof {
            Some(p) => match p.expires {
                Some(e) => now > e,
                None => false,
            },
            None => false,
        }
    }
}

/// Checks a presentation against the challenge issued for this session, as
/// of `now`, given whose signatures the credential and the presentation
/// were found to carry. Fails fast, in the order that
/// [`presentation_result`] gives.
pub fn verify_vp_signed_by(
    vp: &Presentation,
    challenge: &Challenge,
    credential_signer: Option<&[u8]>,
    presentation_signer: Option<&[u8]>,
    now: i64,
) -> (r: Result<(), ValidationError>)
    ensures
        r == presentation_result(
            vp@,
            challenge@,
            opt_slice_view(credential_signer),
            opt_slice_view(presentation_signer),
            now as int,
        ),
{
    if vp.credentials.len() > 1 {
        return Err(ValidationError::MultiCredentialUnsupported);
    }
    if vp.credentials.len() == 0 {
        return Err(ValidationError::Malformed);
    }
    if !vp.binds(challenge.nonce.as_slice()) {
        return Err(ValidationError::BadSignature);
    }
    if now > challenge.expiry || vp.proof_expired_at(now) {
        return Err(ValidationError::Expired);
    }
    let vc = &vp.credentials[0];
    assert(vc@ == vp@.credentials[0]);
    match validate_signed_by(vc, credential_signer, now) {
        Err(e) => {
            return Err(e);
        },
        Ok(_) => {},
    }
    let by_holder = match presentation_signer {
        Some(who) => bytes_eq(who, vp.holder.as_slice()),
        None => false,
    };
    if !by_holder {
        return Err(ValidationError::BadSignature);
    }
    if !vc.is_only_about(vp.holder.as_slice()) {
        return Err(ValidationError::SubjectMismatch);
    }
    Ok(())
}

/// Finds who signed the one credential of a presentation, judged against
/// the issuer's document.
pub fn signer_of_presented_credential(vp: &Presentation, issuer_document: &[u8]) -> (r: Option<Vec<u8>>)
    ensures
        opt_view(r) == presented_credential_signer(vp@, issuer_document@),
{
    if vp.credentials.len() == 1 {
        assert(vp.credentials@[0]@ == vp@.credentials[0]);
        signer_of_credential(&vp.credentials[0], issuer_document)
    } else {
        None
    }
}

/// Finds who signed a presentation, judged against the holder's document,
/// with the nonce that the signature must bind.
pub fn signer_of_presentation(vp: &Presentation, nonce: &[u8], holder_document: Option<&[u8]>) -> (r:
    Option<Vec<u8>>)
    ensures
        opt_view(r) == presentation_signer(vp@, nonce@, opt_slice_view(holder_document)),
{
    match (&vp.proof, holder_document) {
        (Some(proof), Some(document)) => jws_signer(document, proof.value.as_slice(), None, Some(nonce)),
        _ => None,
    }
}

/// Checks a presentation against the challenge issued for this session, as
/// of `now`. The credential's signature is verified against the issuer's
/// document, the presentation's against the holder's own, where the holder
/// has one. Fails fast, in the order that [`presentation_result`] gives.
///
/// The signatures are checked over the tokens that `vp` carries; holder,
/// nonce, expiry and the credential's fields are judged as the caller
/// decoded them from those tokens. Nothing here ties the fields to the
/// tokens' claims.
pub fn verify_vp_at(
    vp: &Presentation,
    challenge: &Challenge,
    issuer_document: &[u8],
    holder_document: Option<&[u8]>,
    now: i64,
) -> (r: Result<(), ValidationError>)
    ensures
        r == presentation_result(
            vp@,
            challenge@,
            presented_credential_signer(vp@, issuer_document@),
            presentation_signer(vp@, challenge@.nonce, opt_slice_view(holder_document)),
            now as int,
        ),
{
    // No signature is computed for a presentation that the cheaper checks
    // already refuse.
    if vp.credentials.len() != 1 || !vp.binds(challenge.nonce.as_slice()) || now > challenge.expiry
        || vp.proof_expired_at(now) {
        return verify_vp_signed_by(vp, challenge, None, None, now);
    }
    let by_issuer = signer_of_presented_credential(vp, issuer_document);
    match validate_signed_by(&vp.credentials[0], as_opt_slice(&by_issuer), now) {
        Err(e) => {
            assert(vp.credentials@[0]@ == vp@.credentials[0]);
            return Err(e);
        },
        Ok(_) => {},
    }
    let by_holder = signer_of_presentation(vp, challenge.nonce.as_slice(), holder_document);
    verify_vp_signed_by(vp, challenge, as_opt_slice(&by_issuer), as_opt_slice(&by_holder), now)
}

/// Checks a presentation against the challenge issued for this session, as
/// of the moment of the call. The clock is read once; the outcome is the one
/// that [`presentation_result`] gives for that reading.
pub fn verify_vp(
    vp: &Presentation,
    challenge: &Challenge,
    issuer_document: &[u8],
    holder_document: Option<&[u8]>,
) -> (r: Result<(), ValidationError>)
    ensures
        exists|now: int|
            r == #[trigger] presentation_result(
                vp@,
                challenge@,
                presented_credential_signer(vp@, issuer_document@),
                presentation_signer(vp@, challenge@.nonce, opt_slice_view(holder_document)),
                now,
            ),
{
    let now = clock_unix();
    verify_vp_at(vp, challenge, issuer_document, holder_document, now)
}

/// The key with which a holder signs its presentations.
pub open spec fn holder_key() -> Seq<u8> {
    ascii("#SCKey"@)
}

/// The key with which a holder signs its presentations, its pointers and
/// its digests.
pub fn presenting_key() -> (r: Vec<u8>)
    ensures
        r@ == holder_key(),
{
    proof {
        reveal_strlit("#SCKey");
    }
    literal("#SCKey")
}

/// The unsigned presentation of `credential` by `holder`.
pub open spec fn presentation_view(holder: Seq<u8>, credential: CredentialView) -> PresentationView {
    PresentationView { holder, credentials: seq![credential], proof: None }
}

/// Wraps `credential` into an unsigned presentation of `holder`, and says
/// what the holder's signature must bind: the challenge's nonce and expiry.
pub fn presentation_for(credential: Credential, holder: Vec<u8>, challenge: &Challenge) -> (r: (
    Presentation,
    ProofOptions,
))
    ensures
        r.0@ == presentation_view(holder@, credential@),
        r.1.method@ == holder_key(),
        opt_view(r.1.challenge) == Some(challenge.nonce@),
        r.1.expires == Some(challenge.expiry),
{
    proof {
        reveal_strlit("#SCKey");
    }
    let mut credentials: Vec<Credential> = Vec::new();
    credentials.push(credential);
    let vp = Presentation { holder, credentials, proof: None };
    assert(vp@.credentials =~= seq![credential@]);
    let options = ProofOptions {
        method: literal("#SCKey"),
        challenge: Some(to_vec(challenge.nonce.as_slice())),
        expires: Some(challenge.expiry),
    };
    (vp, options)
}

/// Builds the presentation from the parser's answer on the holder's
/// identifier: none where the identifier was refused.
pub fn create_vp_parsed(credential: Credential, holder: Option<Vec<u8>>, challenge: &Challenge) -> (r:
    Option<(Presentation, ProofOptions)>)
    ensures
        r is Some <==> holder is Some,
        r matches Some(pair) ==> {
            &&& pair.0@ == presentation_view(holder.unwrap()@, credential@)
            &&& pair.1.method@ == holder_key()
            &&& opt_view(pair.1.challenge) == Some(challenge.nonce@)
            &&& pair.1.expires == Some(challenge.expiry)
        },
{
    match holder {
        Some(h) => Some(presentation_for(credential, h, challenge)),
        None => None,
    }
}

/// Builds the unsigned presentation of `credential` by `holder` for the
/// challenge received, for the identity provider to sign.
///
/// `None` where `holder` is not an identifier of the DID method; otherwise
/// the presentation names the holder in canonical form and the options bind
/// the challenge.
pub fn create_vp(credential: Credential, holder: &[u8], challenge: &Challenge) -> (r: Option<
    (Presentation, ProofOptions),
>)
    ensures
        r is Some <==> canonical_did(holder@) is Some,
        r matches Some(pair) ==> {
            &&& pair.0@ == presentation_view(canonical_did(holder@).unwrap(), credential@)
            &&& pair.1.method@ == holder_key()
            &&& opt_view(pair.1.challenge) == Some(challenge.nonce@)
            &&& pair.1.expires == Some(challenge.expiry)
        },
{
    let h = parse_did(holder);
    create_vp_parsed(credential, h, challenge)
}

/// Attaches the holder's proof to a presentation.
pub fn sign_presentation(vp: Presentation, proof: Proof) -> (r: Presentation)
    ensures
        r@ == (PresentationView { proof: Some(proof@), ..vp@ }),
{
    let Presentation { holder, credentials, proof: _ } = vp;
    Presentation { holder, credentials, proof: Some(proof) }
}

/// A presentation that binds another nonce than the one issued is refused,
/// whatever else holds of it.
pub proof fn lemma_wrong_nonce_refused(
    vp: PresentationView,
    challenge: ChallengeView,
    credential_signer: Option<Seq<u8>>,
    presentation_signer: Option<Seq<u8>>,
    now: int,
)
    requires
        !vp.binds(challenge.nonce),
    ensures
        presentation_result(vp, challenge, credential_signer, presentation_signer, now) is Err,
{
}

/// A presentation checked after the challenge's expiry is refused, whatever
/// else holds of it; as `Expired` where it wraps one credential and binds
/// the nonce.
pub proof fn lemma_late_presentation_refused(
    vp: PresentationView,
    challenge: ChallengeView,
    credential_signer: Option<Seq<u8>>,
    presentation_signer: Option<Seq<u8>>,
    now: int,
)
    requires
        now > challenge.expiry,
    ensures
        presentation_result(vp, challenge, credential_signer, presentation_signer, now) is Err,
        vp.credentials.len() == 1 && vp.binds(challenge.nonce) ==> presentation_result(
            vp,
            challenge,
            credential_signer,
            presentation_signer,
            now,
        ) == Err::<(), ValidationError>(ValidationError::Expired),
{
}

/// A presentation with two or more credentials is refused as
/// `MultiCredentialUnsupported`, whatever the credentials are.
pub proof fn lemma_multi_credential_refused(
    vp: PresentationView,
    challenge: ChallengeView,
    credential_signer: Option<Seq<u8>>,
    presentation_signer: Option<Seq<u8>>,
    now: int,
)
    requires
        vp.credentials.len() >= 2,
    ensures
        presentation_result(vp, challenge, credential_signer, presentation_signer, now) == Err::<
            (),
            ValidationError,
        >(ValidationError::MultiCredentialUnsupported),
{
}

/// A presentation is accepted exactly when it wraps one credential, binds
/// the issued nonce, is in time, carries a valid credential signed by its
/// issuer, is signed by its holder, and the holder is the credential's
/// subject.
pub proof fn lemma_presentation_accepted_iff(
    vp: PresentationView,
    challenge: ChallengeView,
    credential_signer: Option<Seq<u8>>,
    presentation_signer: Option<Seq<u8>>,
    now: int,
)
    ensures
        presentation_result(vp, challenge, credential_signer, presentation_signer, now) is Ok <==> {
            &&& vp.credentials.len() == 1
            &&& vp.binds(challenge.nonce)
            &&& now <= challenge.expiry
            &&& !vp.proof_expired_at(now)
            &&& validation_result(vp.credentials[0], credential_signer, now) is Ok
            &&& presentation_signer == Some(vp.holder)
            &&& vp.credentials[0].only_about(vp.holder)
        },
{
}

/// An unsigned presentation, or one whose holder has no document, is
/// refused against every document.
pub proof fn lemma_unsigned_presentation_refused(
    vp: PresentationView,
    challenge: ChallengeView,
    issuer_document: Seq<u8>,
    holder_document: Option<Seq<u8>>,
    now: int,
)
    requires
        vp.proof is None || holder_document is None,
    ensures
        presentation_result(
            vp,
            challenge,
            presented_credential_signer(vp, issuer_document),
            presentation_signer(vp, challenge.nonce, holder_document),
            now,
        ) is Err,
{
}

} // verus!
