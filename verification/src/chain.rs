//! The integrity chain: the checks that a record retrieved from the ledger,
//! and the content it points to, must pass before the payload counts as a
//! contribution to the round.
//!
//! The check decides; the caller performs. Each step takes the answer to
//! what was last asked and returns the next state together with what to ask
//! next. The first failure ends the check.
use vstd::prelude::*;
use crate::bytes::{as_opt_slice, bytes_eq, opt_slice_view, opt_view, to_vec};
use crate::clock::clock_unix;
use crate::credential::{
    credential_signer,
    signer_of_credential,
    validate_signed_by,
    validation_result,
    Credential,
    CredentialView,
};
use crate::did::{canonical_did, parse_did};
use crate::digest::{commitment, digest_matches};
use crate::error::{Rejection, ValidationError};
use crate::frame::{split_two_lines, trim_end, trim_trailing, two_lines};
use crate::signable::{data_signer, signer_of_data, Signable, SignableView};
use crate::signature::jws_signer;

verus! {

/// How far the check of one record has come.
#[derive(Clone, Debug, PartialEq, Eq)]
pub enum Stage {
    /// The record is to be decoded.
    AwaitingRecord,
    /// The credential line is being decoded.
    AwaitingCredential { pointer: Signable, credential_text: Vec<u8>, address: Vec<u8> },
    /// The document of the credential's subject is being resolved, to check
    /// the pointer's signature.
    AwaitingSubjectDocument { pointer: Signable, credential: Credential, signer: Vec<u8>, address: Vec<u8> },
    /// The issuer's document is being resolved, to validate the credential.
    AwaitingIssuerDocument {
        credential: Credential,
        signer: Vec<u8>,
        subject_document: Vec<u8>,
        address: Vec<u8>,
    },
    /// The content is being fetched from the store.
    AwaitingContent { signer: Vec<u8>, subject_document: Vec<u8> },
    /// The digest line is being decoded.
    AwaitingCommitment { payload: Vec<u8>, signer: Vec<u8>, subject_document: Vec<u8> },
    /// Every check passed; the payload is a contribution.
    Accepted { payload: Vec<u8> },
    /// A check failed.
    Rejected { reason: Rejection },
}

/// The check of one record against the cohort's issuer.
#[derive(Clone, Debug, PartialEq, Eq)]
pub struct RecordCheck {
    pub stage: Stage,
    /// The identifier of the issuer whose credentials admit to the cohort.
    pub issuer: Vec<u8>,
}

/// The answer to what the check last asked.
#[derive(Clone, Debug, PartialEq, Eq)]
pub enum Answer {
    /// The anchored bytes decoded as a signed pointer; absent where they are
    /// none.
    Record(Option<Signable>),
    /// The credential line decoded; absent where it is no credential.
    Credential(Option<Credential>),
    /// The serialized DID document of the identifier asked for; absent where
    /// it could not be resolved.
    Document(Option<Vec<u8>>),
    /// The bytes stored at the address; absent where they could not be had.
    Content(Option<Vec<u8>>),
    /// The digest line decoded as signed data; absent where it is none.
    Commitment(Option<Signable>),
}

/// What the caller is to do next.
#[derive(Clone, Debug, PartialEq, Eq)]
pub enum Request {
    /// Decode this text as a credential; answer with `Answer::Credential`.
    DecodeCredential(Vec<u8>),
    /// Resolve the DID document of `did`; answer with `Answer::Document`.
    Resolve { did: Vec<u8> },
    /// Fetch the content at `address`; answer with `Answer::Content`.
    Fetch { address: Vec<u8> },
    /// Decode this text as signed data; answer with `Answer::Commitment`.
    DecodeCommitment(Vec<u8>),
    /// Nothing: the check has ended.
    Stop,
}

/// Mathematical content of a [`Stage`].
pub enum StageView {
    AwaitingRecord,
    AwaitingCredential { pointer: SignableView, credential_text: Seq<u8>, address: Seq<u8> },
    AwaitingSubjectDocument {
        pointer: SignableView,
        credential: CredentialView,
        signer: Seq<u8>,
        address: Seq<u8>,
    },
    AwaitingIssuerDocument {
        credential: CredentialView,
        signer: Seq<u8>,
        subject_document: Seq<u8>,
        address: Seq<u8>,
    },
    AwaitingContent { signer: Seq<u8>, subject_document: Seq<u8> },
    AwaitingCommitment { payload: Seq<u8>, signer: Seq<u8>, subject_document: Seq<u8> },
    Accepted { payload: Seq<u8> },
    Rejected { reason: Rejection },
}

/// Mathematical content of a [`RecordCheck`].
pub struct RecordCheckView {
    pub stage: StageView,
    pub issuer: Seq<u8>,
}

/// Mathematical content of an [`Answer`].
pub enum AnswerView {
    Record(Option<SignableView>),
    Credential(Option<CredentialView>),
    Document(Option<Seq<u8>>),
    Content(Option<Seq<u8>>),
    Commitment(Option<SignableView>),
}

/// Mathematical content of a [`Request`].
pub enum RequestView {
    DecodeCredential(Seq<u8>),
    Resolve { did: Seq<u8> },
    Fetch { address: Seq<u8> },
    DecodeCommitment(Seq<u8>),
    Stop,
}

impl View for Stage {
    type V = StageView;

    open spec fn view(&self) -> StageView {
        match self {
            Stage::AwaitingRecord => StageView::AwaitingRecord,
            Stage::AwaitingCredential {
                pointer,
                credential_text,
                address,
            } => StageView::AwaitingCredential {
                pointer: pointer@,
                credential_text: credential_text@,
                address: address@,
            },
            Stage::AwaitingSubjectDocument {
                pointer,
                credential,
                signer,
                address,
            } => StageView::AwaitingSubjectDocument {
                pointer: pointer@,
                credential: credential@,
                signer: signer@,
                address: address@,
            },
            Stage::AwaitingIssuerDocument {
                credential,
                signer,
                subject_document,
                address,
            } => StageView::AwaitingIssuerDocument {
                credential: credential@,
                signer: signer@,
                subject_document: subject_document@,
                address: address@,
            },
            Stage::AwaitingContent { signer, subject_document } => StageView::AwaitingContent {
                signer: signer@,
                subject_document: subject_document@,
            },
            Stage::AwaitingCommitment { payload, signer, subject_document } => StageView::AwaitingCommitment {
                payload: payload@,
                signer: signer@,
                subject_document: subject_document@,
            },
            Stage::Accepted { payload } => StageView::Accepted { payload: payload@ },
            Stage::Rejected { reason } => StageView::Rejected { reason: *reason },
        }
    }
}

impl View for RecordCheck {
    type V = RecordCheckView;

    open spec fn view(&self) -> RecordCheckView {
        RecordCheckView { stage: self.stage@, issuer: self.issuer@ }
    }
}

/// The view of optional signed data.
pub open spec fn opt_signable_view(o: Option<Signable>) -> Option<SignableView> {
    match o {
        Some(s) => Some(s@),
        None => None,
    }
}

/// The view of an optional credential.
pub open spec fn opt_credential_view(o: Option<Credential>) -> Option<CredentialView> {
    match o {
        Some(c) => Some(c@),
        None => None,
    }
}

impl View for Answer {
    type V = AnswerView;

    open spec fn view(&self) -> AnswerView {
        match self {
            Answer::Record(r) => AnswerView::Record(opt_signable_view(*r)),
            Answer::Credential(c) => AnswerView::Credential(opt_credential_view(*c)),
            Answer::Document(d) => AnswerView::Document(opt_view(*d)),
            Answer::Content(c) => AnswerView::Content(opt_view(*c)),
            Answer::Commitment(s) => AnswerView::Commitment(opt_signable_view(*s)),
        }
    }
}

impl View for Request {
    type V = RequestView;

    open spec fn view(&self) -> RequestView {
        match self {
            Request::DecodeCredential(t) => RequestView::DecodeCredential(t@),
            Request::Resolve { did } => RequestView::Resolve { did: did@ },
            Request::Fetch { address } => RequestView::Fetch { address: address@ },
            Request::DecodeCommitment(t) => RequestView::DecodeCommitment(t@),
            Request::Stop => RequestView::Stop,
        }
    }
}

/// The identifier, in canonical form, of the one subject that a credential
/// names; `None` where it names none, several, or one that is no identifier
/// of the DID method.
pub open spec fn sole_subject(vc: CredentialView) -> Option<Seq<u8>> {
    if vc.subjects.len() == 1 {
        match vc.subjects[0].id {
            Some(id) => canonical_did(id),
            None => None,
        }
    } else {
        None
    }
}

/// The outcome of validating a credential for the cohort of `issuer`, given
/// whose signature it was found to carry: it must name that issuer, and
/// validate.
pub open spec fn cohort_validation(
    vc: CredentialView,
    issuer: Seq<u8>,
    signer: Option<Seq<u8>>,
    now: int,
) -> Result<(), ValidationError> {
    if vc.issuer != issuer {
        Err(ValidationError::BadSignature)
    } else {
        validation_result(vc, signer, now)
    }
}

impl RecordCheckView {
    /// The check at another stage.
    pub open spec fn at(self, stage: StageView) -> RecordCheckView {
        RecordCheckView { stage, ..self }
    }

    /// The check ended by a failure.
    pub open spec fn rejected(self, reason: Rejection) -> (RecordCheckView, RequestView) {
        (self.at(StageView::Rejected { reason }), RequestView::Stop)
    }

    /// Whether the check has ended.
    pub open spec fn ended(self) -> bool {
        self.stage is Accepted || self.stage is Rejected
    }

    /// The transition function of the check, given what the outside
    /// computations found: the state after `answer` and what the caller is
    /// to do next.
    ///
    /// `subject` is the canonical identifier of the credential's subject,
    /// read where the answer is a credential. `signer` is whose signature
    /// the step's signed object was found to carry: the pointer's where the
    /// subject's document arrives, the credential's where the issuer's
    /// document arrives, the digest's where the digest line arrives.
    ///
    /// The credential is taken with the pointer's credential line as its
    /// signed form, whatever form the answer names. A check that has ended
    /// stays as it is. An answer that was not asked for ends the check as
    /// `OutOfTurn`.
    pub open spec fn step_with(
        self,
        answer: AnswerView,
        subject: Option<Seq<u8>>,
        signer: Option<Seq<u8>>,
        now: int,
    ) -> (RecordCheckView, RequestView) {
        match (self.stage, answer) {
            (StageView::Accepted { .. }, _) => (self, RequestView::Stop),
            (StageView::Rejected { .. }, _) => (self, RequestView::Stop),
            (StageView::AwaitingRecord, AnswerView::Record(record)) => match record {
                None => self.rejected(Rejection::MalformedRecord),
                Some(pointer) => if pointer.proof is None {
                    self.rejected(Rejection::PointerSignature)
                } else {
                    match two_lines(pointer.data) {
                        None => self.rejected(Rejection::MalformedRecord),
                        Some((credential_text, address)) => (
                            self.at(
                                StageView::AwaitingCredential { pointer, credential_text, address },
                            ),
                            RequestView::DecodeCredential(credential_text),
                        ),
                    }
                },
            },
            (
                StageView::AwaitingCredential { pointer, credential_text, address },
                AnswerView::Credential(credential),
            ) => match credential {
                None => self.rejected(Rejection::MalformedRecord),
                Some(decoded) => match subject {
                    None => self.rejected(Rejection::UnknownSubject),
                    Some(signer) => (
                        self.at(
                            StageView::AwaitingSubjectDocument {
                                pointer,
                                credential: decoded.sealed(credential_text),
                                signer,
                                address,
                            },
                        ),
                        RequestView::Resolve { did: signer },
                    ),
                },
            },
            (
                StageView::AwaitingSubjectDocument { pointer, credential, signer: subject, address },
                AnswerView::Document(document),
            ) => match document {
                None => self.rejected(Rejection::Unresolved),
                Some(subject_document) => if signer != Some(subject) {
                    self.rejected(Rejection::PointerSignature)
                } else {
                    (
                        self.at(
                            StageView::AwaitingIssuerDocument {
                                credential,
                                signer: subject,
                                subject_document,
                                address,
                            },
                        ),
                        RequestView::Resolve { did: self.issuer },
                    )
                },
            },
            (
                StageView::AwaitingIssuerDocument { credential, signer: subject, subject_document, address },
                AnswerView::Document(document),
            ) => match document {
                None => self.rejected(Rejection::Unresolved),
                Some(_) => match cohort_validation(credential, self.issuer, signer, now) {
                    Err(e) => self.rejected(Rejection::Credential(e)),
                    Ok(_) => (
                        self.at(StageView::AwaitingContent { signer: subject, subject_document }),
                        RequestView::Fetch { address },
                    ),
                },
            },
            (
                StageView::AwaitingContent { signer: subject, subject_document },
                AnswerView::Content(content),
            ) => match content {
                None => self.rejected(Rejection::Fetch),
                Some(bytes) => match two_lines(bytes) {
                    None => self.rejected(Rejection::MalformedContent),
                    Some((payload, signed)) => (
                        self.at(
                            StageView::AwaitingCommitment { payload, signer: subject, subject_document },
                        ),
                        RequestView::DecodeCommitment(trim_end(signed)),
                    ),
                },
            },
            (
                StageView::AwaitingCommitment { payload, signer: subject, subject_document },
                AnswerView::Commitment(signed),
            ) => match signed {
                None => self.rejected(Rejection::MalformedContent),
                Some(digest) => if signer != Some(subject) {
                    self.rejected(Rejection::ContentSignature)
                } else if commitment(payload) == digest.data {
                    (self.at(StageView::Accepted { payload }), RequestView::Stop)
                } else {
                    self.rejected(Rejection::DigestMismatch)
                },
            },
            _ => self.rejected(Rejection::OutOfTurn),
        }
    }

    /// The canonical subject that the step on `answer` reads: that of the
    /// credential in the answer.
    pub open spec fn subject_in(answer: AnswerView) -> Option<Seq<u8>> {
        match answer {
            AnswerView::Credential(Some(vc)) => sole_subject(vc),
            _ => None,
        }
    }

    /// Whose signature the step on `answer` finds: the pointer's, judged
    /// against the subject's document; the credential's, judged against the
    /// issuer's document; the digest's, judged against the subject's
    /// document.
    pub open spec fn signer_in(self, answer: AnswerView) -> Option<Seq<u8>> {
        match (self.stage, answer) {
            (
                StageView::AwaitingSubjectDocument { pointer, .. },
                AnswerView::Document(Some(document)),
            ) => data_signer(pointer, document),
            (
                StageView::AwaitingIssuerDocument { credential, .. },
                AnswerView::Document(Some(document)),
            ) => credential_signer(credential, document),
            (
                StageView::AwaitingCommitment { subject_document, .. },
                AnswerView::Commitment(Some(digest)),
            ) => data_signer(digest, subject_document),
            _ => None,
        }
    }

    /// The transition function of the check.
    pub open spec fn step(self, answer: AnswerView, now: int) -> (RecordCheckView, RequestView) {
        self.step_with(answer, Self::subject_in(answer), self.signer_in(answer), now)
    }
}

/// Validates a credential for the cohort of `issuer`, given whose signature
/// it was found to carry.
pub fn validate_for_cohort(vc: &Credential, issuer: &[u8], signer: Option<&[u8]>, now: i64) -> (r:
    Result<(), ValidationError>)
    ensures
        r == cohort_validation(vc@, issuer@, opt_slice_view(signer), now as int),
{
    if !bytes_eq(vc.issuer.as_slice(), issuer) {
        return Err(ValidationError::BadSignature);
    }
    validate_signed_by(vc, signer, now)
}

impl RecordCheck {
    /// The check of a fresh record against the cohort's issuer `issuer`.
    pub fn new(issuer: Vec<u8>) -> (r: RecordCheck)
        ensures
            r@ == (RecordCheckView { stage: StageView::AwaitingRecord, issuer: issuer@ }),
    {
        RecordCheck { stage: Stage::AwaitingRecord, issuer }
    }

    /// The payload, once the record is accepted.
    pub fn accepted(&self) -> (r: Option<&Vec<u8>>)
        ensures
            match r {
                Some(p) => self@.stage == (StageView::Accepted { payload: p@ }),
                None => !(self@.stage is Accepted),
            },
    {
        match &self.stage {
            Stage::Accepted { payload } => Some(payload),
            _ => None,
        }
    }

    /// Why the record was rejected, once it is.
    pub fn rejection(&self) -> (r: Option<Rejection>)
        ensures
            match r {
                Some(reason) => self@.stage == (StageView::Rejected { reason }),
                None => !(self@.stage is Rejected),
            },
    {
        match &self.stage {
            Stage::Rejected { reason } => Some(*reason),
            _ => None,
        }
    }

    /// Whether the check has ended.
    pub fn has_ended(&self) -> (r: bool)
        ensures
            r == self@.ended(),
    {
        match &self.stage {
            Stage::Accepted { .. } => true,
            Stage::Rejected { .. } => true,
            _ => false,
        }
    }

    fn reject(issuer: Vec<u8>, reason: Rejection) -> (r: (RecordCheck, Request))
        ensures
            r.0@ == (RecordCheckView { stage: StageView::Rejected { reason }, issuer: issuer@ }),
            r.1@ == RequestView::Stop,
    {
        (RecordCheck { stage: Stage::Rejected { reason }, issuer }, Request::Stop)
    }

    /// One step of the check, given what the outside computations found
    /// and the clock reading: the state after `answer` and what to ask
    /// next, exactly as [`RecordCheckView::step_with`] says.
    pub fn advance_with(
        self,
        answer: Answer,
        subject: Option<Vec<u8>>,
        signer: Option<&[u8]>,
        now: i64,
    ) -> (r: (RecordCheck, Request))
        ensures
            (r.0@, r.1@) == self@.step_with(
                answer@,
                opt_view(subject),
                opt_slice_view(signer),
                now as int,
            ),
    {
        let RecordCheck { stage, issuer } = self;
        match (stage, answer) {
            (Stage::Accepted { payload }, _) => (
                RecordCheck { stage: Stage::Accepted { payload }, issuer },
                Request::Stop,
            ),
            (Stage::Rejected { reason }, _) => (
                RecordCheck { stage: Stage::Rejected { reason }, issuer },
                Request::Stop,
            ),
            (Stage::AwaitingRecord, Answer::Record(record)) => {
                match record {
                    None => RecordCheck::reject(issuer, Rejection::MalformedRecord),
                    Some(pointer) => {
                        if pointer.signature().is_none() {
                            return RecordCheck::reject(issuer, Rejection::PointerSignature);
                        }
                        match split_two_lines(pointer.data().as_slice()) {
                            None => RecordCheck::reject(issuer, Rejection::MalformedRecord),
                            Some((credential_text, address)) => {
                                let text = to_vec(credential_text.as_slice());
                                (
                                    RecordCheck {
                                        stage: Stage::AwaitingCredential { pointer, credential_text, address },
                                        issuer,
                                    },
                                    Request::DecodeCredential(text),
                                )
                            },
                        }
                    },
                }
            },
            (
                Stage::AwaitingCredential { pointer, credential_text, address },
                Answer::Credential(credential),
            ) => {
                match credential {
                    None => RecordCheck::reject(issuer, Rejection::MalformedRecord),
                    Some(decoded) => match subject {
                        None => RecordCheck::reject(issuer, Rejection::UnknownSubject),
                        Some(signer) => {
                            let did = to_vec(signer.as_slice());
                            let credential = decoded.seal(credential_text);
                            (
                                RecordCheck {
                                    stage: Stage::AwaitingSubjectDocument {
                                        pointer,
                                        credential,
                                        signer,
                                        address,
                                    },
                                    issuer,
                                },
                                Request::Resolve { did },
                            )
                        },
                    },
                }
            },
            (
                Stage::AwaitingSubjectDocument { pointer, credential, signer: subject, address },
                Answer::Document(document),
            ) => {
                match document {
                    None => RecordCheck::reject(issuer, Rejection::Unresolved),
                    Some(subject_document) => {
                        let by_subject = match signer {
                            Some(who) => bytes_eq(who, subject.as_slice()),
                            None => false,
                        };
                        if !by_subject {
                            return RecordCheck::reject(issuer, Rejection::PointerSignature);
                        }
                        let did = to_vec(issuer.as_slice());
                        (
                            RecordCheck {
                                stage: Stage::AwaitingIssuerDocument {
                                    credential,
                                    signer: subject,
                                    subject_document,
                                    address,
                                },
                                issuer,
                            },
                            Request::Resolve { did },
                        )
                    },
                }
            },
            (
                Stage::AwaitingIssuerDocument { credential, signer: subject, subject_document, address },
                Answer::Document(document),
            ) => {
                match document {
                    None => RecordCheck::reject(issuer, Rejection::Unresolved),
                    Some(_) => match validate_for_cohort(&credential, issuer.as_slice(), signer, now) {
                        Err(e) => RecordCheck::reject(issuer, Rejection::Credential(e)),
                        Ok(_) => (
                            RecordCheck {
                                stage: Stage::AwaitingContent { signer: subject, subject_document },
                                issuer,
                            },
                            Request::Fetch { address },
                        ),
                    },
                }
            },
            (Stage::AwaitingContent { signer: subject, subject_document }, Answer::Content(content)) => {
                match content {
                    None => RecordCheck::reject(issuer, Rejection::Fetch),
                    Some(bytes) => match split_two_lines(bytes.as_slice()) {
                        None => RecordCheck::reject(issuer, Rejection::MalformedContent),
                        Some((payload, signed)) => {
                            let text = trim_trailing(signed.as_slice());
                            (
                                RecordCheck {
                                    stage: Stage::AwaitingCommitment {
                                        payload,
                                        signer: subject,
                                        subject_document,
                                    },
                                    issuer,
                                },
                                Request::DecodeCommitment(text),
                            )
                        },
                    },
                }
            },
            (
                Stage::AwaitingCommitment { payload, signer: subject, subject_document },
                Answer::Commitment(signed),
            ) => {
                match signed {
                    None => RecordCheck::reject(issuer, Rejection::MalformedContent),
                    Some(digest) => {
                        let by_subject = match signer {
                            Some(who) => bytes_eq(who, subject.as_slice()),
                            None => false,
                        };
                        if !by_subject {
                            return RecordCheck::reject(issuer, Rejection::ContentSignature);
                        }
                        if digest_matches(payload.as_slice(), digest.data().as_slice()) {
                            (RecordCheck { stage: Stage::Accepted { payload }, issuer }, Request::Stop)
                        } else {
                            RecordCheck::reject(issuer, Rejection::DigestMismatch)
                        }
                    },
                }
            },
            (_, _) => RecordCheck::reject(issuer, Rejection::OutOfTurn),
        }
    }

    /// The canonical identifier of the subject of the credential in
    /// `answer`, where the answer is a credential with exactly one subject
    /// that the DID method's parser accepts.
    pub fn subject_of(answer: &Answer) -> (r: Option<Vec<u8>>)
        ensures
            opt_view(r) == RecordCheckView::subject_in(answer@),
    {
        match answer {
            Answer::Credential(Some(vc)) => {
                if vc.subjects.len() != 1 {
                    return None;
                }
                assert(vc@.subjects[0] == vc.subjects@[0]@);
                match &vc.subjects[0].id {
                    Some(id) => parse_did(id.as_slice()),
                    None => None,
                }
            },
            _ => None,
        }
    }

    /// Whose signature the step on `answer` finds.
    pub fn signer_for(&self, answer: &Answer) -> (r: Option<Vec<u8>>)
        ensures
            opt_view(r) == self@.signer_in(answer@),
    {
        match (&self.stage, answer) {
            (Stage::AwaitingSubjectDocument { pointer, .. }, Answer::Document(Some(document))) => {
                signer_of_data(pointer, document.as_slice())
            },
            (Stage::AwaitingIssuerDocument { credential, .. }, Answer::Document(Some(document))) => {
                signer_of_credential(credential, document.as_slice())
            },
            (Stage::AwaitingCommitment { subject_document, .. }, Answer::Commitment(Some(digest))) => {
                signer_of_data(digest, subject_document.as_slice())
            },
            _ => None,
        }
    }

    /// One step of the check with the clock reading given: the state after
    /// `answer` and what to ask next, exactly as [`RecordCheckView::step`]
    /// says.
    pub fn advance(self, answer: Answer, now: i64) -> (r: (RecordCheck, Request))
        ensures
            (r.0@, r.1@) == self@.step(answer@, now as int),
    {
        let subject = RecordCheck::subject_of(&answer);
        let signer = self.signer_for(&answer);
        self.advance_with(answer, subject, as_opt_slice(&signer), now)
    }

    /// One step of the check: the state after `answer` and what to ask
    /// next. The clock is read once; the outcome is the one that
    /// [`RecordCheckView::step`] gives for that reading.
    pub fn step(self, answer: Answer) -> (r: (RecordCheck, Request))
        ensures
            exists|now: int| (r.0@, r.1@) == #[trigger] self@.step(answer@, now),
    {
        let now = clock_unix();
        self.advance(answer, now)
    }
}

/// Everything that the collaborators can say about one record: the answers
/// to all that a check may ask, gathered beforehand.
#[derive(Clone, Debug, PartialEq, Eq)]
pub struct Evidence {
    /// The anchored bytes decoded as a signed pointer.
    pub record: Option<Signable>,
    /// The pointer's credential line decoded.
    pub credential: Option<Credential>,
    /// The DID document of the credential's subject.
    pub subject_document: Option<Vec<u8>>,
    /// The DID document of the cohort's issuer.
    pub issuer_document: Option<Vec<u8>>,
    /// The bytes stored at the pointer's address.
    pub content: Option<Vec<u8>>,
    /// The content's digest line decoded as signed data.
    pub signed_digest: Option<Signable>,
}

/// Mathematical content of an [`Evidence`].
pub struct EvidenceView {
    pub record: Option<SignableView>,
    pub credential: Option<CredentialView>,
    pub subject_document: Option<Seq<u8>>,
    pub issuer_document: Option<Seq<u8>>,
    pub content: Option<Seq<u8>>,
    pub signed_digest: Option<SignableView>,
}

impl View for Evidence {
    type V = EvidenceView;

    open spec fn view(&self) -> EvidenceView {
        EvidenceView {
            record: opt_signable_view(self.record),
            credential: opt_credential_view(self.credential),
            subject_document: opt_view(self.subject_document),
            issuer_document: opt_view(self.issuer_document),
            content: opt_view(self.content),
            signed_digest: opt_signable_view(self.signed_digest),
        }
    }
}

/// Where the check of a record ends when every question is answered from
/// `evidence`, in the order in which the check asks.
pub open spec fn run(issuer: Seq<u8>, evidence: EvidenceView, now: int) -> RecordCheckView {
    let s0 = RecordCheckView { stage: StageView::AwaitingRecord, issuer };
    let s1 = s0.step(AnswerView::Record(evidence.record), now).0;
    let s2 = s1.step(AnswerView::Credential(evidence.credential), now).0;
    let s3 = s2.step(AnswerView::Document(evidence.subject_document), now).0;
    let s4 = s3.step(AnswerView::Document(evidence.issuer_document), now).0;
    let s5 = s4.step(AnswerView::Content(evidence.content), now).0;
    s5.step(AnswerView::Commitment(evidence.signed_digest), now).0
}

/// The outcome of the check of a record on `evidence`: the payload, or the
/// first failure.
pub open spec fn verdict(issuer: Seq<u8>, evidence: EvidenceView, now: int) -> Result<
    Seq<u8>,
    Rejection,
> {
    match run(issuer, evidence, now).stage {
        StageView::Accepted { payload } => Ok(payload),
        StageView::Rejected { reason } => Err(reason),
        _ => Err(Rejection::OutOfTurn),
    }
}

/// The view of a check's outcome.
pub open spec fn outcome_view(r: Result<Vec<u8>, Rejection>) -> Result<Seq<u8>, Rejection> {
    match r {
        Ok(p) => Ok(p@),
        Err(e) => Err(e),
    }
}

/// The two lines of the pointer in `evidence`, where the record is a signed
/// pointer of two lines.
pub open spec fn pointer_lines(evidence: EvidenceView) -> Option<(Seq<u8>, Seq<u8>)> {
    match evidence.record {
        Some(pointer) => if pointer.proof is Some {
            two_lines(pointer.data)
        } else {
            None
        },
        None => None,
    }
}

/// The payload line and the digest line of the content in `evidence`.
pub open spec fn content_lines(evidence: EvidenceView) -> Option<(Seq<u8>, Seq<u8>)> {
    match evidence.content {
        Some(bytes) => two_lines(bytes),
        None => None,
    }
}

/// The record in `evidence` is a signed pointer of two lines whose
/// credential names one subject, the documents of subject and issuer are
/// at hand, and the content is a payload line and a digest line that
/// decodes.
pub open spec fn well_framed(evidence: EvidenceView) -> bool {
    &&& pointer_lines(evidence) is Some
    &&& evidence.credential matches Some(vc) && sole_subject(vc) is Some
    &&& evidence.subject_document is Some
    &&& evidence.issuer_document is Some
    &&& content_lines(evidence) is Some
    &&& evidence.signed_digest is Some
}

/// The pointer is signed by the credential's subject.
pub open spec fn pointer_authentic(evidence: EvidenceView) -> bool {
    &&& evidence.record matches Some(pointer)
    &&& evidence.credential matches Some(vc)
    &&& evidence.subject_document matches Some(document)
    &&& sole_subject(vc) is Some
    &&& data_signer(pointer, document) == sole_subject(vc)
}

/// The credential of the record in `evidence`: the decoded credential with
/// the pointer's credential line as its signed form.
pub open spec fn anchored_credential(evidence: EvidenceView) -> Option<CredentialView> {
    match (pointer_lines(evidence), evidence.credential) {
        (Some((credential_text, _)), Some(decoded)) => Some(decoded.sealed(credential_text)),
        _ => None,
    }
}

/// The credential names the cohort's issuer and validates against the
/// issuer's document.
pub open spec fn credential_valid(issuer: Seq<u8>, evidence: EvidenceView, now: int) -> bool {
    &&& anchored_credential(evidence) matches Some(vc)
    &&& evidence.issuer_document matches Some(document)
    &&& cohort_validation(vc, issuer, credential_signer(vc, document), now) is Ok
}

/// The digest is signed by the credential's subject.
pub open spec fn digest_authentic(evidence: EvidenceView) -> bool {
    &&& evidence.signed_digest matches Some(digest)
    &&& evidence.credential matches Some(vc)
    &&& evidence.subject_document matches Some(document)
    &&& sole_subject(vc) is Some
    &&& data_signer(digest, document) == sole_subject(vc)
}

/// The payload hashes to the signed digest.
pub open spec fn digest_agrees(evidence: EvidenceView) -> bool {
    content_lines(evidence) matches Some((payload, _)) && evidence.signed_digest matches Some(
        digest,
    ) && commitment(payload) == digest.data
}

/// Checks a record on evidence gathered beforehand, with the clock reading
/// given: the payload where every check passes, else the first failure, in
/// the order in which the step-by-step check would meet it.
pub fn check_record(evidence: &Evidence, issuer: &[u8], now: i64) -> (r: Result<Vec<u8>, Rejection>)
    ensures
        outcome_view(r) == verdict(issuer@, evidence@, now as int),
{
    let pointer = match &evidence.record {
        None => {
            return Err(Rejection::MalformedRecord);
        },
        Some(pointer) => pointer,
    };
    if pointer.signature().is_none() {
        return Err(Rejection::PointerSignature);
    }
    let (credential_text, _) = match split_two_lines(pointer.data().as_slice()) {
        None => {
            return Err(Rejection::MalformedRecord);
        },
        Some(lines) => lines,
    };
    let vc = match &evidence.credential {
        None => {
            return Err(Rejection::MalformedRecord);
        },
        Some(vc) => vc,
    };
    if vc.subjects.len() != 1 {
        return Err(Rejection::UnknownSubject);
    }
    assert(vc@.subjects[0] == vc.subjects@[0]@);
    let subject = match &vc.subjects[0].id {
        Some(id) => parse_did(id.as_slice()),
        None => None,
    };
    let subject = match subject {
        None => {
            return Err(Rejection::UnknownSubject);
        },
        Some(subject) => subject,
    };
    let subject_document = match &evidence.subject_document {
        None => {
            return Err(Rejection::Unresolved);
        },
        Some(document) => document,
    };
    let by = signer_of_data(pointer, subject_document.as_slice());
    let by_subject = match &by {
        Some(who) => bytes_eq(who.as_slice(), subject.as_slice()),
        None => false,
    };
    if !by_subject {
        return Err(Rejection::PointerSignature);
    }
    let issuer_document = match &evidence.issuer_document {
        None => {
            return Err(Rejection::Unresolved);
        },
        Some(document) => document,
    };
    let by = jws_signer(issuer_document.as_slice(), credential_text.as_slice(), None, None);
    match validate_for_cohort(vc, issuer, as_opt_slice(&by), now) {
        Err(e) => {
            return Err(Rejection::Credential(e));
        },
        Ok(_) => {},
    }
    let content = match &evidence.content {
        None => {
            return Err(Rejection::Fetch);
        },
        Some(bytes) => bytes,
    };
    let (payload, _) = match split_two_lines(content.as_slice()) {
        None => {
            return Err(Rejection::MalformedContent);
        },
        Some(pair) => pair,
    };
    let digest = match &evidence.signed_digest {
        None => {
            return Err(Rejection::MalformedContent);
        },
        Some(digest) => digest,
    };
    let by = signer_of_data(digest, subject_document.as_slice());
    let by_subject = match &by {
        Some(who) => bytes_eq(who.as_slice(), subject.as_slice()),
        None => false,
    };
    if !by_subject {
        return Err(Rejection::ContentSignature);
    }
    if !digest_matches(payload.as_slice(), digest.data().as_slice()) {
        return Err(Rejection::DigestMismatch);
    }
    Ok(payload)
}

/// A record is accepted exactly when it is well framed, its pointer is
/// signed by the credential's subject, the credential validates against the
/// issuer, the digest is signed by the subject, and the payload hashes to
/// the digest. What is accepted is the content's payload line.
pub proof fn lemma_accepts_iff_all_hold(issuer: Seq<u8>, evidence: EvidenceView, now: int)
    ensures
        verdict(issuer, evidence, now) is Ok <==> {
            &&& well_framed(evidence)
            &&& pointer_authentic(evidence)
            &&& credential_valid(issuer, evidence, now)
            &&& digest_authentic(evidence)
            &&& digest_agrees(evidence)
        },
        verdict(issuer, evidence, now) matches Ok(payload) ==> content_lines(evidence) matches Some(
            (first, _),
        ) && first == payload,
{
}

/// Each of the four checks rejects by itself: a pointer signature that does
/// not verify, a credential that does not validate, a digest signature that
/// does not verify, or a payload that does not hash to the digest ends the
/// check in a rejection, whatever the other checks would say.
pub proof fn lemma_each_check_rejects(issuer: Seq<u8>, evidence: EvidenceView, now: int)
    requires
        !pointer_authentic(evidence) || !credential_valid(issuer, evidence, now)
            || !digest_authentic(evidence) || !digest_agrees(evidence),
    ensures
        verdict(issuer, evidence, now) is Err,
{
    lemma_accepts_iff_all_hold(issuer, evidence, now);
}

/// The first failure decides: with the record well framed, the four checks
/// report in the order pointer, credential, digest signature, digest.
pub proof fn lemma_first_failure(issuer: Seq<u8>, evidence: EvidenceView, now: int)
    requires
        well_framed(evidence),
    ensures
        !pointer_authentic(evidence) ==> verdict(issuer, evidence, now) == Err::<Seq<u8>, Rejection>(
            Rejection::PointerSignature,
        ),
        pointer_authentic(evidence) && !credential_valid(issuer, evidence, now) ==> verdict(
            issuer,
            evidence,
            now,
        ) == Err::<Seq<u8>, Rejection>(
            Rejection::Credential(
                cohort_validation(
                    anchored_credential(evidence).unwrap(),
                    issuer,
                    credential_signer(
                        anchored_credential(evidence).unwrap(),
                        evidence.issuer_document.unwrap(),
                    ),
                    now,
                )->Err_0,
            ),
        ),
        pointer_authentic(evidence) && credential_valid(issuer, evidence, now) && !digest_authentic(
            evidence,
        ) ==> verdict(issuer, evidence, now) == Err::<Seq<u8>, Rejection>(
            Rejection::ContentSignature,
        ),
        pointer_authentic(evidence) && credential_valid(issuer, evidence, now) && digest_authentic(
            evidence,
        ) && !digest_agrees(evidence) ==> verdict(issuer, evidence, now) == Err::<
            Seq<u8>,
            Rejection,
        >(Rejection::DigestMismatch),
{
}

} // verus!
