use fl_trust::chain::{validate_for_cohort, Answer, RecordCheck, Request, Stage};
use fl_trust::credential::{Attribute, Credential, Subject};
use fl_trust::digest::content_digest;
use fl_trust::error::{ErrorKind, Rejection, ValidationError};
use fl_trust::publish::{create_ipfs_content, payload_commitment, upload_to_tangle};
use fl_trust::signable::{Proof, Signable};

const ISSUER: &[u8] = b"did:iota:0xaaaaaaaaaaaaaaaaaaaaaaaaaaaaaaaaaaaaaaaaaaaaaaaaaaaaaaaaaaaaaaaa";
const HOLDER: &[u8] = b"did:iota:0x1111111111111111111111111111111111111111111111111111111111111111";
const OTHER: &[u8] = b"did:iota:0x2222222222222222222222222222222222222222222222222222222222222222";
const VC_TEXT: &[u8] = b"header.claims.signature";
const ADDRESS: &[u8] = b"QmYwAPJzv5CZsnA625s3Xf2nemtYgPpHdWEz79ojWnPbdG";
const MODEL: &[u8] = b"{\"weights\":[0.1,0.2]}";
const SIGNED_DIGEST: &[u8] = b"{\"data\":\"...\",\"proof\":{}}";
const NOW: i64 = 1_700_000_000;

/// What the outside computations are taken to have found.
struct Findings {
    subject: Option<Vec<u8>>,
    pointer_signer: Option<Vec<u8>>,
    credential_signer: Option<Vec<u8>>,
    digest_signer: Option<Vec<u8>>,
}

struct Answers {
    record: Option<Signable>,
    credential: Option<Credential>,
    subject_document: Option<Vec<u8>>,
    issuer_document: Option<Vec<u8>>,
    content: Option<Vec<u8>>,
    signed_digest: Option<Signable>,
}

fn seal() -> Proof {
    Proof { method: b"#SCKey".to_vec(), challenge: None, expires: None, value: b"sig".to_vec() }
}

fn signed(data: &[u8]) -> Signable {
    Signable::Signed { data: data.to_vec(), proof: seal() }
}

fn credential() -> Credential {
    Credential {
        issuer: ISSUER.to_vec(),
        claim_type: b"AccessoSC".to_vec(),
        subjects: vec![Subject {
            id: Some(HOLDER.to_vec()),
            attributes: vec![Attribute {
                name: b"name".to_vec(),
                value: b"AccessoSmartContract".to_vec(),
            }],
        }],
        expiry: None,
        token: Some(VC_TEXT.to_vec()),
    }
}

fn pointer() -> Signable {
    let mut data = VC_TEXT.to_vec();
    data.push(b'\n');
    data.extend_from_slice(ADDRESS);
    signed(&data)
}

fn content() -> Vec<u8> {
    let mut bytes = MODEL.to_vec();
    bytes.push(b'\n');
    bytes.extend_from_slice(SIGNED_DIGEST);
    bytes
}

fn good_findings() -> Findings {
    Findings {
        subject: Some(HOLDER.to_vec()),
        pointer_signer: Some(HOLDER.to_vec()),
        credential_signer: Some(ISSUER.to_vec()),
        digest_signer: Some(HOLDER.to_vec()),
    }
}

fn good_answers() -> Answers {
    Answers {
        record: Some(pointer()),
        credential: Some(credential()),
        subject_document: Some(b"{subject}".to_vec()),
        issuer_document: Some(b"{issuer}".to_vec()),
        content: Some(content()),
        signed_digest: Some(signed(&content_digest(MODEL))),
    }
}

fn outcome(a: Answers, f: Findings) -> Result<Vec<u8>, Rejection> {
    let steps: Vec<(Answer, Option<Vec<u8>>, Option<Vec<u8>>)> = vec![
        (Answer::Record(a.record), None, None),
        (Answer::Credential(a.credential), f.subject, None),
        (Answer::Document(a.subject_document), None, f.pointer_signer),
        (Answer::Document(a.issuer_document), None, f.credential_signer),
        (Answer::Content(a.content), None, None),
        (Answer::Commitment(a.signed_digest), None, f.digest_signer),
    ];
    let mut check = RecordCheck::new(ISSUER.to_vec());
    for (answer, subject, signer) in steps {
        let (next, request) = check.advance_with(answer, subject, signer.as_deref(), NOW);
        check = next;
        if check.has_ended() {
            assert_eq!(request, Request::Stop);
            break;
        }
    }
    match (check.accepted(), check.rejection()) {
        (Some(payload), None) => Ok(payload.clone()),
        (None, Some(reason)) => Err(reason),
        _ => panic!("the check has not ended"),
    }
}

#[test]
fn record_with_good_findings_is_accepted() {
    assert_eq!(outcome(good_answers(), good_findings()), Ok(MODEL.to_vec()));
}

#[test]
fn each_step_asks_for_the_next() {
    let check = RecordCheck::new(ISSUER.to_vec());
    assert_eq!(check.stage, Stage::AwaitingRecord);
    let (check, request) = check.advance_with(Answer::Record(Some(pointer())), None, None, NOW);
    assert_eq!(request, Request::DecodeCredential(VC_TEXT.to_vec()));
    let (check, request) =
        check.advance_with(Answer::Credential(Some(credential())), Some(HOLDER.to_vec()), None, NOW);
    assert_eq!(request, Request::Resolve { did: HOLDER.to_vec() });
    let (check, request) =
        check.advance_with(Answer::Document(Some(b"{subject}".to_vec())), None, Some(HOLDER), NOW);
    assert_eq!(request, Request::Resolve { did: ISSUER.to_vec() });
    let (check, request) =
        check.advance_with(Answer::Document(Some(b"{issuer}".to_vec())), None, Some(ISSUER), NOW);
    assert_eq!(request, Request::Fetch { address: ADDRESS.to_vec() });
    let (check, request) = check.advance_with(Answer::Content(Some(content())), None, None, NOW);
    assert_eq!(request, Request::DecodeCommitment(SIGNED_DIGEST.to_vec()));
    assert!(!check.has_ended());
    assert_eq!(check.accepted(), None);
    assert_eq!(check.rejection(), None);
    let digest = Answer::Commitment(Some(signed(&content_digest(MODEL))));
    let (check, request) = check.advance_with(digest, None, Some(HOLDER), NOW);
    assert_eq!(request, Request::Stop);
    assert_eq!(check.accepted(), Some(&MODEL.to_vec()));
    assert!(check.has_ended());
}

#[test]
fn subject_is_resolved_in_canonical_form() {
    let mut vc = credential();
    vc.subjects[0].id = Some(
        b"DID:IOTA:0x1111111111111111111111111111111111111111111111111111111111111111".to_vec(),
    );
    let check = RecordCheck::new(ISSUER.to_vec());
    let (check, _) = check.advance(Answer::Record(Some(pointer())), NOW);
    let (_, request) = check.advance(Answer::Credential(Some(vc.clone())), NOW);
    assert_eq!(request, Request::Resolve { did: HOLDER.to_vec() });
    assert_eq!(RecordCheck::subject_of(&Answer::Credential(Some(vc))), Some(HOLDER.to_vec()));
    assert_eq!(RecordCheck::subject_of(&Answer::Document(None)), None);
}

#[test]
fn no_signature_is_looked_for_where_none_is_due() {
    let check = RecordCheck::new(ISSUER.to_vec());
    assert_eq!(check.signer_for(&Answer::Record(Some(pointer()))), None);
    assert_eq!(check.signer_for(&Answer::Document(Some(b"{}".to_vec()))), None);
    let (check, _) = check.advance(Answer::Record(Some(pointer())), NOW);
    let (check, _) = check.advance(Answer::Credential(Some(credential())), NOW);
    assert_eq!(check.signer_for(&Answer::Document(None)), None);
    assert_eq!(check.signer_for(&Answer::Document(Some(b"{}".to_vec()))), None);
}

#[test]
fn padding_after_the_signed_digest_is_dropped() {
    let mut a = good_answers();
    a.content.as_mut().unwrap().extend_from_slice(b" \0\0 ");
    let check = RecordCheck::new(ISSUER.to_vec());
    let (check, _) = check.advance_with(Answer::Record(a.record), None, None, NOW);
    let (check, _) = check.advance_with(Answer::Credential(a.credential), Some(HOLDER.to_vec()), None, NOW);
    let (check, _) = check.advance_with(Answer::Document(a.subject_document), None, Some(HOLDER), NOW);
    let (check, _) = check.advance_with(Answer::Document(a.issuer_document), None, Some(ISSUER), NOW);
    let (_, request) = check.advance_with(Answer::Content(a.content), None, None, NOW);
    assert_eq!(request, Request::DecodeCommitment(SIGNED_DIGEST.to_vec()));
}

#[test]
fn undecodable_record_is_rejected() {
    let mut a = good_answers();
    a.record = None;
    assert_eq!(outcome(a, good_findings()), Err(Rejection::MalformedRecord));
}

#[test]
fn record_without_address_line_is_rejected() {
    let mut a = good_answers();
    a.record = Some(signed(VC_TEXT));
    assert_eq!(outcome(a, good_findings()), Err(Rejection::MalformedRecord));
}

#[test]
fn unsigned_record_is_rejected() {
    let mut a = good_answers();
    let data = a.record.as_ref().unwrap().data().clone();
    a.record = Some(Signable::new(data));
    assert_eq!(outcome(a, good_findings()), Err(Rejection::PointerSignature));
}

#[test]
fn undecodable_credential_is_rejected() {
    let mut a = good_answers();
    a.credential = None;
    assert_eq!(outcome(a, good_findings()), Err(Rejection::MalformedRecord));
}

#[test]
fn credential_without_known_subject_is_rejected() {
    let mut f = good_findings();
    f.subject = None;
    assert_eq!(outcome(good_answers(), f), Err(Rejection::UnknownSubject));
}

#[test]
fn credential_must_name_one_subject_by_identifier() {
    let start = || RecordCheck::new(ISSUER.to_vec()).advance(Answer::Record(Some(pointer())), NOW).0;
    let rejects = |vc: Credential| {
        let (check, request) = start().advance(Answer::Credential(Some(vc)), NOW);
        assert_eq!(request, Request::Stop);
        assert_eq!(check.rejection(), Some(Rejection::UnknownSubject));
    };
    let mut two = credential();
    two.subjects.push(Subject { id: Some(HOLDER.to_vec()), attributes: vec![] });
    rejects(two);
    let mut none = credential();
    none.subjects.clear();
    rejects(none);
    let mut anonymous = credential();
    anonymous.subjects[0].id = None;
    rejects(anonymous);
    let mut garbled = credential();
    garbled.subjects[0].id = Some(b"holder".to_vec());
    rejects(garbled);
}

#[test]
fn pointer_not_signed_by_the_subject_is_rejected() {
    let mut f = good_findings();
    f.pointer_signer = None;
    assert_eq!(outcome(good_answers(), f), Err(Rejection::PointerSignature));
    let mut f = good_findings();
    f.pointer_signer = Some(OTHER.to_vec());
    assert_eq!(outcome(good_answers(), f), Err(Rejection::PointerSignature));
}

#[test]
fn unresolved_documents_are_reported() {
    let mut a = good_answers();
    a.subject_document = None;
    assert_eq!(outcome(a, good_findings()), Err(Rejection::Unresolved));
    let mut a = good_answers();
    a.issuer_document = None;
    assert_eq!(outcome(a, good_findings()), Err(Rejection::Unresolved));
}

#[test]
fn credential_not_valid_for_the_cohort_is_rejected() {
    let mut f = good_findings();
    f.credential_signer = None;
    assert_eq!(outcome(good_answers(), f), Err(Rejection::Credential(ValidationError::BadSignature)));

    let mut f = good_findings();
    f.credential_signer = Some(HOLDER.to_vec());
    assert_eq!(outcome(good_answers(), f), Err(Rejection::Credential(ValidationError::BadSignature)));

    let mut lapsed = good_answers();
    lapsed.credential.as_mut().unwrap().expiry = Some(NOW - 1);
    assert_eq!(outcome(lapsed, good_findings()), Err(Rejection::Credential(ValidationError::Expired)));

    let mut hollow = good_answers();
    hollow.credential.as_mut().unwrap().claim_type.clear();
    assert_eq!(outcome(hollow, good_findings()), Err(Rejection::Credential(ValidationError::Malformed)));

    let mut foreign = good_answers();
    foreign.credential.as_mut().unwrap().issuer = OTHER.to_vec();
    let mut f = good_findings();
    f.credential_signer = Some(OTHER.to_vec());
    assert_eq!(outcome(foreign, f), Err(Rejection::Credential(ValidationError::BadSignature)));
}

#[test]
fn cohort_validation_needs_the_cohorts_issuer() {
    assert_eq!(validate_for_cohort(&credential(), ISSUER, Some(ISSUER), NOW), Ok(()));
    assert_eq!(
        validate_for_cohort(&credential(), OTHER, Some(ISSUER), NOW),
        Err(ValidationError::BadSignature)
    );
    assert_eq!(
        validate_for_cohort(&credential(), ISSUER, Some(OTHER), NOW),
        Err(ValidationError::BadSignature)
    );
    assert_eq!(validate_for_cohort(&credential(), ISSUER, None, NOW), Err(ValidationError::BadSignature));
}

#[test]
fn missing_content_is_rejected() {
    let mut a = good_answers();
    a.content = None;
    assert_eq!(outcome(a, good_findings()), Err(Rejection::Fetch));
}

#[test]
fn content_without_digest_line_is_rejected() {
    let mut a = good_answers();
    a.content = Some(MODEL.to_vec());
    assert_eq!(outcome(a, good_findings()), Err(Rejection::MalformedContent));
    let mut a = good_answers();
    a.signed_digest = None;
    assert_eq!(outcome(a, good_findings()), Err(Rejection::MalformedContent));
}

#[test]
fn digest_not_signed_by_the_subject_is_rejected() {
    let mut f = good_findings();
    f.digest_signer = None;
    assert_eq!(outcome(good_answers(), f), Err(Rejection::ContentSignature));
    let mut f = good_findings();
    f.digest_signer = Some(ISSUER.to_vec());
    assert_eq!(outcome(good_answers(), f), Err(Rejection::ContentSignature));
}

#[test]
fn payload_that_does_not_hash_to_the_digest_is_rejected() {
    let mut a = good_answers();
    let mut bytes = b"{\"weights\":[0.1,0.3]}".to_vec();
    bytes.push(b'\n');
    bytes.extend_from_slice(SIGNED_DIGEST);
    a.content = Some(bytes);
    assert_eq!(outcome(a, good_findings()), Err(Rejection::DigestMismatch));

    let mut a = good_answers();
    a.signed_digest = Some(signed(&content_digest(b"another model")));
    assert_eq!(outcome(a, good_findings()), Err(Rejection::DigestMismatch));
}

#[test]
fn earlier_failure_wins_over_later_ones() {
    let everything_wrong = || Findings {
        subject: Some(HOLDER.to_vec()),
        pointer_signer: None,
        credential_signer: None,
        digest_signer: None,
    };
    assert_eq!(outcome(good_answers(), everything_wrong()), Err(Rejection::PointerSignature));

    let mut f = everything_wrong();
    f.pointer_signer = Some(HOLDER.to_vec());
    let mut a = good_answers();
    a.content = None;
    assert_eq!(outcome(a, f), Err(Rejection::Credential(ValidationError::BadSignature)));

    let mut f = everything_wrong();
    f.pointer_signer = Some(HOLDER.to_vec());
    f.credential_signer = Some(ISSUER.to_vec());
    let mut a = good_answers();
    a.signed_digest = Some(signed(b"00"));
    assert_eq!(outcome(a, f), Err(Rejection::ContentSignature));
}

#[test]
fn answer_out_of_turn_ends_the_check() {
    let check = RecordCheck::new(ISSUER.to_vec());
    let (check, request) = check.advance(Answer::Document(Some(b"{}".to_vec())), NOW);
    assert_eq!(request, Request::Stop);
    assert_eq!(check.rejection(), Some(Rejection::OutOfTurn));

    let check = RecordCheck::new(ISSUER.to_vec());
    let (check, _) = check.advance(Answer::Record(Some(pointer())), NOW);
    let (check, _) = check.advance(Answer::Content(Some(content())), NOW);
    assert_eq!(check.rejection(), Some(Rejection::OutOfTurn));
}

#[test]
fn ended_check_stays_as_it_is() {
    let check = RecordCheck::new(ISSUER.to_vec());
    let (check, _) = check.advance(Answer::Record(None), NOW);
    let (check, request) = check.advance(Answer::Record(Some(pointer())), NOW);
    assert_eq!(request, Request::Stop);
    assert_eq!(check.rejection(), Some(Rejection::MalformedRecord));
    assert_eq!(check.accepted(), None);
}

#[test]
fn rejections_have_their_kind() {
    let malformed = ErrorKind::Validation(ValidationError::Malformed);
    let bad_signature = ErrorKind::Validation(ValidationError::BadSignature);
    assert_eq!(Rejection::MalformedRecord.kind(), malformed);
    assert_eq!(Rejection::UnknownSubject.kind(), ErrorKind::IdentityResolution);
    assert_eq!(Rejection::Unresolved.kind(), ErrorKind::IdentityResolution);
    assert_eq!(Rejection::PointerSignature.kind(), bad_signature);
    assert_eq!(
        Rejection::Credential(ValidationError::Expired).kind(),
        ErrorKind::Validation(ValidationError::Expired)
    );
    assert_eq!(Rejection::Fetch.kind(), ErrorKind::Fetch);
    assert_eq!(Rejection::MalformedContent.kind(), malformed);
    assert_eq!(Rejection::ContentSignature.kind(), bad_signature);
    assert_eq!(Rejection::DigestMismatch.kind(), bad_signature);
    assert_eq!(Rejection::OutOfTurn.kind(), ErrorKind::ProtocolViolation);
}

#[test]
fn publishing_frames_content_and_pointer() {
    assert_eq!(payload_commitment(MODEL), Signable::new(content_digest(MODEL)));
    assert_eq!(create_ipfs_content(MODEL, SIGNED_DIGEST), content());
    let anchor = upload_to_tangle(VC_TEXT, ADDRESS, b"3");
    assert_eq!(anchor.tag, b"IOTAFederatedLearning#3".to_vec());
    assert!(anchor.pointer.signature().is_none());
    assert_eq!(anchor.pointer.data(), pointer().data());
}
