//! Verifiable credentials: the claim an issuer signs about a subject, and
//! the rules under which a verifier accepts it.
use vstd::prelude::*;
use crate::bytes::{as_opt_slice, ascii, bytes_eq, literal, opt_slice_view, opt_view};
use crate::did::{canonical_did, parse_did};
use crate::error::{IssuanceError, ValidationError};
use crate::signature::{jws_signer, verified_signer};

verus! {

/// One named property that a credential states of its subject.
#[derive(Clone, Debug, PartialEq, Eq)]
pub struct Attribute {
    pub name: Vec<u8>,
    pub value: Vec<u8>,
}

/// Who a credential is about, and what it says of them.
#[derive(Clone, Debug, PartialEq, Eq)]
pub struct Subject {
    /// The subject's identifier, if the credential names one.
    pub id: Option<Vec<u8>>,
    pub attributes: Vec<Attribute>,
}

/// The claim of a verifiable credential.
#[derive(Clone, Debug, PartialEq, Eq)]
pub struct Credential {
    /// The issuer's identifier.
    pub issuer: Vec<u8>,
    /// The kind of claim.
    pub claim_type: Vec<u8>,
    /// The subjects; a credential of this protocol has exactly one.
    pub subjects: Vec<Subject>,
    /// Unix seconds after which the credential no longer holds, if any.
    pub expiry: Option<i64>,
    /// The credential as its issuer signed and serialized it; absent while
    /// the claim is unsigned.
    pub token: Option<Vec<u8>>,
}

/// Mathematical content of an [`Attribute`].
pub struct AttributeView {
    pub name: Seq<u8>,
    pub value: Seq<u8>,
}

/// Mathematical content of a [`Subject`].
pub struct SubjectView {
    pub id: Option<Seq<u8>>,
    pub attributes: Seq<AttributeView>,
}

/// Mathematical content of a [`Credential`].
pub struct CredentialView {
    pub issuer: Seq<u8>,
    pub claim_type: Seq<u8>,
    pub subjects: Seq<SubjectView>,
    pub expiry: Option<int>,
    pub token: Option<Seq<u8>>,
}

impl View for Attribute {
    type V = AttributeView;

    open spec fn view(&self) -> AttributeView {
        AttributeView { name: self.name@, value: self.value@ }
    }
}

impl View for Subject {
    type V = SubjectView;

    open spec fn view(&self) -> SubjectView {
        SubjectView {
            id: opt_view(self.id),
            attributes: Seq::new(self.attributes@.len(), |i: int| self.attributes@[i]@),
        }
    }
}

impl View for Credential {
    type V = CredentialView;

    open spec fn view(&self) -> CredentialView {
        CredentialView {
            issuer: self.issuer@,
            claim_type: self.claim_type@,
            subjects: Seq::new(self.subjects@.len(), |i: int| self.subjects@[i]@),
            expiry: match self.expiry {
                Some(e) => Some(e as int),
                None => None,
            },
            token: opt_view(self.token),
        }
    }
}

impl SubjectView {
    /// A subject says something: it has an identifier or an attribute.
    pub open spec fn well_formed(self) -> bool {
        self.id is Some || self.attributes.len() > 0
    }
}

impl CredentialView {
    /// Structural well-formedness: an issuer, a claim type, at least one
    /// subject, and no subject that is empty.
    pub open spec fn well_formed(self) -> bool {
        &&& self.issuer.len() > 0
        &&& self.claim_type.len() > 0
        &&& self.subjects.len() > 0
        &&& forall|i: int| 0 <= i < self.subjects.len() ==> (#[trigger] self.subjects[i]).well_formed()
    }

    /// Whether the credential has lapsed at `now`. One without an expiry
    /// never lapses.
    pub open spec fn expired_at(self, now: int) -> bool {
        match self.expiry {
            Some(e) => now > e,
            None => false,
        }
    }

    /// Whether every subject is `who`.
    pub open spec fn only_about(self, who: Seq<u8>) -> bool {
        forall|i: int| 0 <= i < self.subjects.len() ==> (#[trigger] self.subjects[i]).id == Some(who)
    }
}

/// Who signed a credential, judged against `document`: the identifier of
/// that document where the credential's token verifies against it; nobody
/// where it does not, or where the credential is unsigned.
///
/// The signature covers the token. The fields of the credential are not
/// read here: they are what the caller decoded from the token, and that they
/// are the token's claims is the caller's to see to.
pub open spec fn credential_signer(vc: CredentialView, document: Seq<u8>) -> Option<Seq<u8>> {
    match vc.token {
        Some(token) => verified_signer(document, token, None, None),
        None => None,
    }
}

/// The outcome of validating a credential, given the `signer` against whose
/// document its signature verified, as of `now`.
///
/// The checks run in this order and the first violation is the result:
/// signature (the signer is the credential's issuer), expiry, structure.
pub open spec fn validation_result(vc: CredentialView, signer: Option<Seq<u8>>, now: int) -> Result<
    (),
    ValidationError,
> {
    if signer != Some(vc.issuer) {
        Err(ValidationError::BadSignature)
    } else if vc.expired_at(now) {
        Err(ValidationError::Expired)
    } else if !vc.well_formed() {
        Err(ValidationError::Malformed)
    } else {
        Ok(())
    }
}

impl Subject {
    /// Whether the subject has an identifier or an attribute.
    pub fn is_well_formed(&self) -> (r: bool)
        ensures
            r == self@.well_formed(),
    {
        self.id.is_some() || self.attributes.len() > 0
    }

    /// Whether the subject's identifier is `who`.
    pub fn is(&self, who: &[u8]) -> (r: bool)
        ensures
            r == (self@.id == Some(who@)),
    {
        match &self.id {
            Some(id) => bytes_eq(id.as_slice(), who),
            None => false,
        }
    }
}

impl Credential {
    /// Structural well-formedness.
    pub fn is_well_formed(&self) -> (r: bool)
        ensures
            r == self@.well_formed(),
    {
        if self.issuer.len() == 0 || self.claim_type.len() == 0 || self.subjects.len() == 0 {
            return false;
        }
        let mut i: usize = 0;
        while i < self.subjects.len()
            invariant
                i <= self.subjects.len(),
                forall|k: int| 0 <= k < i ==> (#[trigger] self@.subjects[k]).well_formed(),
            decreases self.subjects.len() - i,
        {
            if !self.subjects[i].is_well_formed() {
                assert(!self@.subjects[i as int].well_formed());
                return false;
            }
            i = i + 1;
        }
        true
    }

    /// The credential with the serialized signed form `token`.
    pub fn seal(self, token: Vec<u8>) -> (r: Credential)
        ensures
            r@ == self@.sealed(token@),
    {
        let Credential { issuer, claim_type, subjects, expiry, token: _ } = self;
        Credential { issuer, claim_type, subjects, expiry, token: Some(token) }
    }

    /// Whether the credential has lapsed at `now`.
    pub fn is_expired_at(&self, now: i64) -> (r: bool)
        ensures
            r == self@.expired_at(now as int),
    {
        match self.expiry {
            Some(e) => now > e,
            None => false,
        }
    }

    /// Whether every subject of the credential is `who`.
    pub fn is_only_about(&self, who: &[u8]) -> (r: bool)
        ensures
            r == self@.only_about(who@),
    {
        let mut i: usize = 0;
        while i < self.subjects.len()
            invariant
                i <= self.subjects.len(),
                forall|k: int| 0 <= k < i ==> (#[trigger] self@.subjects[k]).id == Some(who@),
            decreases self.subjects.len() - i,
        {
            if !self.subjects[i].is(who) {
                assert(self@.subjects[i as int].id != Some(who@));
                return false;
            }
            i = i + 1;
        }
        true
    }
}

/// Validates a credential whose signature was found to be that of
/// `signer` (nobody, where it verified against no document), as of `now`.
/// Fails fast: signature first, then expiry, then structure.
pub fn validate_signed_by(vc: &Credential, signer: Option<&[u8]>, now: i64) -> (r: Result<
    (),
    ValidationError,
>)
    ensures
        r == validation_result(vc@, opt_slice_view(signer), now as int),
{
    let by_issuer = match signer {
        Some(who) => bytes_eq(who, vc.issuer.as_slice()),
        None => false,
    };
    if !by_issuer {
        return Err(ValidationError::BadSignature);
    }
    if vc.is_expired_at(now) {
        return Err(ValidationError::Expired);
    }
    if !vc.is_well_formed() {
        return Err(ValidationError::Malformed);
    }
    Ok(())
}

/// Finds who signed a credential, judged against `document`.
pub fn signer_of_credential(vc: &Credential, document: &[u8]) -> (r: Option<Vec<u8>>)
    ensures
        opt_view(r) == credential_signer(vc@, document@),
{
    match &vc.token {
        Some(token) => jws_signer(document, token.as_slice(), None, None),
        None => None,
    }
}

/// Validates a credential against the issuer's document, as of `now`: its
/// signature must verify against that document, which must be the document
/// of the issuer that the credential names. Fails fast: signature first,
/// then expiry, then structure.
///
/// The signature is checked over `vc.token`; issuer, expiry and structure
/// are judged on the fields of `vc` as the caller decoded them from that
/// token. Nothing here ties the fields to the token's claims.
pub fn validate(vc: &Credential, issuer_document: &[u8], now: i64) -> (r: Result<(), ValidationError>)
    ensures
        r == validation_result(vc@, credential_signer(vc@, issuer_document@), now as int),
{
    let signer = signer_of_credential(vc, issuer_document);
    validate_signed_by(vc, as_opt_slice(&signer), now)
}

/// The key with which the issuer signs the credentials it gives out, as a
/// fragment of its document.
pub open spec fn issuer_key() -> Seq<u8> {
    ascii("#issuerKey"@)
}

/// The key with which the issuer signs the credentials it gives out.
pub fn issuing_key() -> (r: Vec<u8>)
    ensures
        r@ == issuer_key(),
{
    proof {
        reveal_strlit("#issuerKey");
    }
    literal("#issuerKey")
}

/// The claim type of the credentials that this cohort's issuer gives out.
pub open spec fn access_claim_type() -> Seq<u8> {
    ascii("AccessoSC"@)
}

/// The attribute name under which the issuer labels the subject.
pub open spec fn label_name() -> Seq<u8> {
    ascii("name"@)
}

/// The label that the issuer gives every subject.
pub open spec fn access_label() -> Seq<u8> {
    ascii("AccessoSmartContract"@)
}

/// The views of a list of attributes.
pub open spec fn attribute_views(attributes: Seq<Attribute>) -> Seq<AttributeView> {
    Seq::new(attributes.len(), |i: int| attributes[i]@)
}

/// The unsigned claim that `issuer` makes about `subject`.
pub open spec fn claim_view(
    issuer: Seq<u8>,
    subject: Seq<u8>,
    claim_type: Seq<u8>,
    attributes: Seq<AttributeView>,
) -> CredentialView {
    CredentialView {
        issuer,
        claim_type,
        subjects: seq![SubjectView { id: Some(subject), attributes }],
        expiry: None,
        token: None,
    }
}

/// Builds the unsigned claim of `issuer` about `subject`. It has one
/// subject, no expiry and no token.
pub fn claim_for(issuer: Vec<u8>, subject: Vec<u8>, claim_type: Vec<u8>, attributes: Vec<Attribute>) -> (r:
    Credential)
    ensures
        r@ == claim_view(issuer@, subject@, claim_type@, attribute_views(attributes@)),
{
    let ghost attrs = attribute_views(attributes@);
    let subject = Subject { id: Some(subject), attributes };
    assert(subject@.attributes =~= attrs);
    let mut subjects: Vec<Subject> = Vec::new();
    subjects.push(subject);
    let r = Credential { issuer, claim_type, subjects, expiry: None, token: None };
    assert(r@.subjects =~= seq![subject@]);
    r
}

/// What issuing a claim yields, given the canonical forms of the two
/// identifiers as the DID method's parser returned them.
pub open spec fn issue_result(
    issuer: Option<Seq<u8>>,
    subject: Option<Seq<u8>>,
    claim_type: Seq<u8>,
    attributes: Seq<AttributeView>,
) -> Result<CredentialView, IssuanceError> {
    match (issuer, subject) {
        (None, _) => Err(IssuanceError::InvalidIssuer),
        (Some(_), None) => Err(IssuanceError::InvalidSubject),
        (Some(i), Some(s)) => Ok(claim_view(i, s, claim_type, attributes)),
    }
}

/// The view of an issuing outcome.
pub open spec fn issued_view(r: Result<Credential, IssuanceError>) -> Result<
    CredentialView,
    IssuanceError,
> {
    match r {
        Ok(c) => Ok(c@),
        Err(e) => Err(e),
    }
}

/// Builds the claim from the parser's answers on the two identifiers.
pub fn issue_parsed(
    issuer: Option<Vec<u8>>,
    subject: Option<Vec<u8>>,
    claim_type: Vec<u8>,
    attributes: Vec<Attribute>,
) -> (r: Result<Credential, IssuanceError>)
    ensures
        issued_view(r) == issue_result(
            opt_view(issuer),
            opt_view(subject),
            claim_type@,
            attribute_views(attributes@),
        ),
{
    match issuer {
        None => Err(IssuanceError::InvalidIssuer),
        Some(i) => match subject {
            None => Err(IssuanceError::InvalidSubject),
            Some(s) => Ok(claim_for(i, s, claim_type, attributes)),
        },
    }
}

/// Builds the unsigned claim of `issuer` about `subject`, for the identity
/// provider to sign.
///
/// Both identifiers must be identifiers of the DID method; the claim holds
/// their canonical forms.
pub fn issue(issuer: &[u8], subject: &[u8], claim_type: Vec<u8>, attributes: Vec<Attribute>) -> (r:
    Result<Credential, IssuanceError>)
    ensures
        issued_view(r) == issue_result(
            canonical_did(issuer@),
            canonical_did(subject@),
            claim_type@,
            attribute_views(attributes@),
        ),
{
    let i = parse_did(issuer);
    let s = parse_did(subject);
    issue_parsed(i, s, claim_type, attributes)
}

/// The attributes that the cohort's issuer states of every subject: its
/// label.
pub fn access_attributes() -> (r: Vec<Attribute>)
    ensures
        attribute_views(r@) == seq![AttributeView { name: label_name(), value: access_label() }],
{
    proof {
        reveal_strlit("name");
        reveal_strlit("AccessoSmartContract");
    }
    let a = Attribute { name: literal("name"), value: literal("AccessoSmartContract") };
    let mut r: Vec<Attribute> = Vec::new();
    r.push(a);
    assert(attribute_views(r@) =~= seq![AttributeView { name: label_name(), value: access_label() }]);
    r
}

/// Builds the cohort's access credential for `holder`, unsigned.
pub fn crea_vc(issuer: &[u8], holder: &[u8]) -> (r: Result<Credential, IssuanceError>)
    ensures
        issued_view(r) == issue_result(
            canonical_did(issuer@),
            canonical_did(holder@),
            access_claim_type(),
            seq![AttributeView { name: label_name(), value: access_label() }],
        ),
{
    proof {
        reveal_strlit("AccessoSC");
    }
    issue(issuer, holder, literal("AccessoSC"), access_attributes())
}

impl CredentialView {
    /// The credential with the serialized signed form `token`.
    pub open spec fn sealed(self, token: Seq<u8>) -> CredentialView {
        CredentialView { token: Some(token), ..self }
    }
}

/// What the issuer hands out once the identity provider has answered.
///
/// `signed` is the serialized credential that the provider returned, absent
/// where signing failed; `signer` is whose signature it was found to carry.
/// The credential is handed out only if it validates.
pub open spec fn issuance_result(
    claim: CredentialView,
    signed: Option<Seq<u8>>,
    signer: Option<Seq<u8>>,
    now: int,
) -> Result<CredentialView, IssuanceError> {
    match signed {
        None => Err(IssuanceError::Signing),
        Some(token) => match validation_result(claim.sealed(token), signer, now) {
            Err(e) => Err(IssuanceError::Rejected(e)),
            Ok(_) => Ok(claim.sealed(token)),
        },
    }
}

/// Who signed the serialized credential `signed`, judged against
/// `document`.
pub open spec fn issuance_signer(signed: Option<Seq<u8>>, document: Seq<u8>) -> Option<Seq<u8>> {
    match signed {
        Some(token) => verified_signer(document, token, None, None),
        None => None,
    }
}

/// Completes an issuance, given whose signature the serialized credential
/// was found to carry: the credential with its token, if it validates.
pub fn finish_issuance_signed_by(
    claim: Credential,
    signed: Option<Vec<u8>>,
    signer: Option<&[u8]>,
    now: i64,
) -> (r: Result<Credential, IssuanceError>)
    ensures
        issued_view(r) == issuance_result(claim@, opt_view(signed), opt_slice_view(signer), now as int),
{
    match signed {
        None => Err(IssuanceError::Signing),
        Some(token) => {
            let Credential { issuer, claim_type, subjects, expiry, token: _ } = claim;
            let sealed = Credential { issuer, claim_type, subjects, expiry, token: Some(token) };
            assert(sealed@ == claim@.sealed(token@));
            match validate_signed_by(&sealed, signer, now) {
                Err(e) => Err(IssuanceError::Rejected(e)),
                Ok(_) => Ok(sealed),
            }
        },
    }
}

/// Completes an issuance: the signed credential is handed out only if it
/// validates against the issuer's own document.
pub fn finish_issuance(claim: Credential, signed: Option<Vec<u8>>, issuer_document: &[u8], now: i64) -> (r:
    Result<Credential, IssuanceError>)
    ensures
        issued_view(r) == issuance_result(
            claim@,
            opt_view(signed),
            issuance_signer(opt_view(signed), issuer_document@),
            now as int,
        ),
{
    let signer = match &signed {
        Some(token) => jws_signer(issuer_document, token.as_slice(), None, None),
        None => None,
    };
    finish_issuance_signed_by(claim, signed, as_opt_slice(&signer), now)
}

/// A credential that is well formed, unexpired and signed by its issuer is
/// accepted.
pub proof fn lemma_valid_credential_accepted(vc: CredentialView, now: int)
    requires
        vc.well_formed(),
        !vc.expired_at(now),
    ensures
        validation_result(vc, Some(vc.issuer), now) == Ok::<(), ValidationError>(()),
{
}

/// A credential whose signature verifies against no document, or against
/// the document of another than its issuer, is refused as `BadSignature`,
/// whatever else holds of it. A signature with any bit changed is such a
/// signature wherever the signature scheme refuses it.
pub proof fn lemma_unverified_credential_refused(vc: CredentialView, signer: Option<Seq<u8>>, now: int)
    requires
        signer != Some(vc.issuer),
    ensures
        validation_result(vc, signer, now) == Err::<(), ValidationError>(
            ValidationError::BadSignature,
        ),
{
}

/// An unsigned credential is refused as `BadSignature` against every
/// document.
pub proof fn lemma_unsigned_credential_refused(vc: CredentialView, document: Seq<u8>, now: int)
    requires
        vc.token is None,
    ensures
        validation_result(vc, credential_signer(vc, document), now) == Err::<(), ValidationError>(
            ValidationError::BadSignature,
        ),
{
}

/// Validation accepts exactly the credentials that pass all three checks.
pub proof fn lemma_validation_accepts_iff(vc: CredentialView, signer: Option<Seq<u8>>, now: int)
    ensures
        validation_result(vc, signer, now) is Ok <==> (signer == Some(vc.issuer) && !vc.expired_at(
            now,
        ) && vc.well_formed()),
{
}

} // verus!
