//! The publishing side of a round: what a holder signs, stores and anchors.
use vstd::prelude::*;
use crate::chain::{cohort_validation, sole_subject, verdict, EvidenceView};
use crate::credential::{credential_signer, CredentialView};
use crate::digest::{commitment, content_digest};
use crate::error::Rejection;
use crate::frame::{join_lines, joined, lemma_split_joined, no_line_feed, single_line};
use crate::ledger::{round_tag, tag_of};
use crate::signable::{data_signer, ProofView, Signable, SignableView};

verus! {

/// The digest of `payload` as unsigned data, for the holder to sign.
pub fn payload_commitment(payload: &[u8]) -> (r: Signable)
    ensures
        r@ == (SignableView { data: commitment(payload@), proof: None }),
{
    Signable::new(content_digest(payload))
}

/// Frames the content that goes to the store: the payload as the first
/// line, the serialized signed digest as the second.
pub fn create_ipfs_content(payload: &[u8], signed_digest: &[u8]) -> (r: Vec<u8>)
    ensures
        r@ == joined(payload@, signed_digest@),
{
    join_lines(payload, signed_digest)
}

/// What a holder anchors for a round: the tag, and the pointer that its
/// signature is to cover.
#[derive(Clone, Debug, PartialEq, Eq)]
pub struct Anchor {
    pub tag: Vec<u8>,
    /// The credential and the content address, one per line, unsigned.
    pub pointer: Signable,
}

/// Prepares the record that anchors a contribution: the holder's serialized
/// credential `vc` and the content address `cid` as two lines, under the tag
/// of round `index`. The holder signs the pointer before it is published.
pub fn upload_to_tangle(vc: &[u8], cid: &[u8], index: &[u8]) -> (r: Anchor)
    ensures
        r.tag@ == tag_of(index@),
        r.pointer@ == (SignableView { data: joined(vc@, cid@), proof: None }),
{
    Anchor { tag: round_tag(index), pointer: Signable::new(join_lines(vc, cid)) }
}

/// Publishing round trip: what a credentialed holder publishes is accepted.
///
/// The payload and the serialized credential are single lines, the address
/// and the serialized digest hold no line feed and are not empty; the
/// content is framed as [`create_ipfs_content`] frames it, the pointer as
/// [`upload_to_tangle`] frames it, and the digest is the one that
/// [`payload_commitment`] computes. Then, with pointer and digest signed by
/// the credential's subject and a credential that validates against the
/// cohort's issuer, the check ends with the payload.
pub proof fn lemma_published_is_accepted(
    issuer: Seq<u8>,
    payload: Seq<u8>,
    credential_text: Seq<u8>,
    address: Seq<u8>,
    digest_text: Seq<u8>,
    credential: CredentialView,
    pointer_proof: ProofView,
    digest_proof: ProofView,
    subject_document: Seq<u8>,
    issuer_document: Seq<u8>,
    now: int,
)
    requires
        single_line(payload),
        single_line(credential_text),
        no_line_feed(address) && address.len() > 0,
        no_line_feed(digest_text) && digest_text.len() > 0,
        sole_subject(credential) is Some,
        data_signer(
            SignableView { data: joined(credential_text, address), proof: Some(pointer_proof) },
            subject_document,
        ) == sole_subject(credential),
        data_signer(
            SignableView { data: commitment(payload), proof: Some(digest_proof) },
            subject_document,
        ) == sole_subject(credential),
        cohort_validation(
            credential.sealed(credential_text),
            issuer,
            credential_signer(credential.sealed(credential_text), issuer_document),
            now,
        ) is Ok,
    ensures
        verdict(
            issuer,
            EvidenceView {
                record: Some(
                    SignableView {
                        data: joined(credential_text, address),
                        proof: Some(pointer_proof),
                    },
                ),
                credential: Some(credential),
                subject_document: Some(subject_document),
                issuer_document: Some(issuer_document),
                content: Some(joined(payload, digest_text)),
                signed_digest: Some(
                    SignableView { data: commitment(payload), proof: Some(digest_proof) },
                ),
            },
            now,
        ) == Ok::<Seq<u8>, Rejection>(payload),
{
    lemma_split_joined(credential_text, address);
    lemma_split_joined(payload, digest_text);
}

} // verus!
