//! Why an operation of the protocol was refused.
use vstd::prelude::*;

verus! {

/// Why a credential or a presentation was not accepted.
#[derive(Clone, Copy, Debug, PartialEq, Eq, Structural)]
pub enum ValidationError {
    /// A proof is missing, does not verify against the signer's document,
    /// or binds another challenge than the one issued.
    BadSignature,
    /// The credential, the presentation's proof or the challenge has lapsed.
    Expired,
    /// A required part is absent or empty.
    Malformed,
    /// The presentation carries more than one credential.
    MultiCredentialUnsupported,
    /// The presenter is not the subject of the credential.
    SubjectMismatch,
}

/// Why no credential was issued.
#[derive(Clone, Copy, Debug, PartialEq, Eq, Structural)]
pub enum IssuanceError {
    /// The issuer's own identifier is not an identifier of the DID method.
    InvalidIssuer,
    /// The subject's identifier is not an identifier of the DID method.
    InvalidSubject,
    /// The identity provider could not sign the claim.
    Signing,
    /// The signed credential did not pass validation.
    Rejected(ValidationError),
}

/// Why a record retrieved from the ledger was not accepted as a
/// contribution.
#[derive(Clone, Copy, Debug, PartialEq, Eq, Structural)]
pub enum Rejection {
    /// The record is no signed pointer of a credential line and an address
    /// line, or the credential line is no credential.
    MalformedRecord,
    /// The credential does not name exactly one subject by an identifier of
    /// the DID method.
    UnknownSubject,
    /// The document of a signer could not be resolved.
    Unresolved,
    /// The pointer is not signed by the credential's subject.
    PointerSignature,
    /// The credential does not validate against the issuer.
    Credential(ValidationError),
    /// The content could not be fetched from the store.
    Fetch,
    /// The content is not a payload line and a signed digest line.
    MalformedContent,
    /// The digest is not signed by the credential's subject.
    ContentSignature,
    /// The payload does not hash to the signed digest.
    DigestMismatch,
    /// An answer arrived that the check had not asked for.
    OutOfTurn,
}

/// The kinds of failure that the protocol's decisions tell apart.
#[derive(Clone, Copy, Debug, PartialEq, Eq, Structural)]
pub enum ErrorKind {
    /// An identifier is none of the DID method, or has no document.
    IdentityResolution,
    /// The identity provider did not sign.
    Signing,
    /// A credential, a presentation or a record did not pass a check.
    Validation(ValidationError),
    /// Content could not be had from the store.
    Fetch,
    /// A message or an answer came out of turn.
    ProtocolViolation,
}

impl Rejection {
    /// The kind of failure that a rejection is.
    pub open spec fn kind_of(self) -> ErrorKind {
        match self {
            Rejection::MalformedRecord => ErrorKind::Validation(ValidationError::Malformed),
            Rejection::UnknownSubject => ErrorKind::IdentityResolution,
            Rejection::Unresolved => ErrorKind::IdentityResolution,
            Rejection::PointerSignature => ErrorKind::Validation(ValidationError::BadSignature),
            Rejection::Credential(e) => ErrorKind::Validation(e),
            Rejection::Fetch => ErrorKind::Fetch,
            Rejection::MalformedContent => ErrorKind::Validation(ValidationError::Malformed),
            Rejection::ContentSignature => ErrorKind::Validation(ValidationError::BadSignature),
            Rejection::DigestMismatch => ErrorKind::Validation(ValidationError::BadSignature),
            Rejection::OutOfTurn => ErrorKind::ProtocolViolation,
        }
    }

    /// The kind of failure that this rejection is.
    pub fn kind(&self) -> (k: ErrorKind)
        ensures
            k == self.kind_of(),
    {
        match self {
            Rejection::MalformedRecord => ErrorKind::Validation(ValidationError::Malformed),
            Rejection::UnknownSubject => ErrorKind::IdentityResolution,
            Rejection::Unresolved => ErrorKind::IdentityResolution,
            Rejection::PointerSignature => ErrorKind::Validation(ValidationError::BadSignature),
            Rejection::Credential(e) => ErrorKind::Validation(*e),
            Rejection::Fetch => ErrorKind::Fetch,
            Rejection::MalformedContent => ErrorKind::Validation(ValidationError::Malformed),
            Rejection::ContentSignature => ErrorKind::Validation(ValidationError::BadSignature),
            Rejection::DigestMismatch => ErrorKind::Validation(ValidationError::BadSignature),
            Rejection::OutOfTurn => ErrorKind::ProtocolViolation,
        }
    }
}

impl IssuanceError {
    /// The kind of failure that an issuance error is.
    pub open spec fn kind_of(self) -> ErrorKind {
        match self {
            IssuanceError::InvalidIssuer => ErrorKind::IdentityResolution,
            IssuanceError::InvalidSubject => ErrorKind::IdentityResolution,
            IssuanceError::Signing => ErrorKind::Signing,
            IssuanceError::Rejected(e) => ErrorKind::Validation(e),
        }
    }

    /// The kind of failure that this issuance error is.
    pub fn kind(&self) -> (k: ErrorKind)
        ensures
            k == self.kind_of(),
    {
        match self {
            IssuanceError::InvalidIssuer => ErrorKind::IdentityResolution,
            IssuanceError::InvalidSubject => ErrorKind::IdentityResolution,
            IssuanceError::Signing => ErrorKind::Signing,
            IssuanceError::Rejected(e) => ErrorKind::Validation(*e),
        }
    }
}

} // verus!
