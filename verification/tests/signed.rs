use identity_iota::credential::{CredentialBuilder, Jwt, JwtPresentationOptions, PresentationBuilder, Subject as IdSubject};
use identity_iota::iota::{IotaDID, IotaDocument, NetworkName, StateMetadataDocument};
use identity_iota::storage::{JwkDocumentExt, JwkMemStore, JwsSignatureOptions, KeyIdMemstore, Storage};
use identity_iota::verification::jws::JwsAlgorithm;
use identity_iota::verification::MethodScope;

use fl_trust::chain::{check_record, Answer, Evidence, RecordCheck, Request};
use fl_trust::challenge::Challenge;
use fl_trust::credential::{
    crea_vc, finish_issuance, issuing_key, signer_of_credential, validate, Credential,
};
use fl_trust::did::{did_of_genesis, is_genesis_of, parse_did};
use fl_trust::digest::content_digest;
use fl_trust::error::{IssuanceError, Rejection, ValidationError};
use fl_trust::presentation::{
    create_vp, sign_presentation, signer_of_presentation, signer_of_presented_credential, verify_vp,
    verify_vp_at, Presentation,
};
use fl_trust::publish::{create_ipfs_content, payload_commitment, upload_to_tangle};
use fl_trust::round::{get_models, get_models_at, Entry};
use fl_trust::session::{Action, Event, Phase, Session};
use fl_trust::signable::{signer_of_data, Proof, Signable};

const T: i64 = 1_577_836_800;
const MINUTE: i64 = 60;

struct Actor {
    document: IotaDocument,
    storage: Storage<JwkMemStore, KeyIdMemstore>,
    fragment: String,
}

fn block_on<F: std::future::Future>(work: F) -> F::Output {
    tokio::runtime::Builder::new_current_thread().build().unwrap().block_on(work)
}

/// An identity whose identifier vouches for its document: the document is
/// made with its key under a placeholder, packed, and named after the
/// digest of what was packed.
fn actor(_label: u8, fragment: &str) -> Actor {
    let network = NetworkName::try_from(String::from("dev")).unwrap();
    let mut draft = IotaDocument::new(&network);
    let storage = Storage::new(JwkMemStore::new(), KeyIdMemstore::new());
    block_on(draft.generate_method(
        &storage,
        JwkMemStore::ED25519_KEY_TYPE,
        JwsAlgorithm::EdDSA,
        Some(fragment),
        MethodScope::VerificationMethod,
    ))
    .unwrap();
    let genesis = draft.pack().unwrap();
    let did = did_of_genesis(b"dev", &genesis);
    assert!(is_genesis_of(&did, b"dev", &genesis));
    assert_eq!(parse_did(&did), Some(did.clone()));
    let document = StateMetadataDocument::unpack(&genesis)
        .unwrap()
        .into_iota_document(&IotaDID::parse(String::from_utf8(did).unwrap()).unwrap())
        .unwrap();
    Actor { document, storage, fragment: fragment.to_owned() }
}

impl Actor {
    fn did(&self) -> Vec<u8> {
        self.document.id().to_string().into_bytes()
    }

    fn json(&self) -> Vec<u8> {
        identity_iota::core::ToJson::to_json_vec(&self.document).unwrap()
    }

    fn seal(&self, data: &[u8]) -> Proof {
        let options = JwsSignatureOptions::default().b64(false).detached_payload(true);
        let jws = block_on(self.document.create_jws(&self.storage, &self.fragment, data, &options)).unwrap();
        Proof {
            method: self.fragment.clone().into_bytes(),
            challenge: None,
            expires: None,
            value: jws.as_str().as_bytes().to_vec(),
        }
    }

    fn signed(&self, data: &[u8]) -> Signable {
        let mut signable = Signable::new(data.to_vec());
        signable.set_signature(self.seal(data));
        signable
    }

    fn sign_credential(&self, claim: &Credential) -> Vec<u8> {
        let text = |bytes: &Vec<u8>| String::from_utf8(bytes.clone()).unwrap();
        let mut properties = identity_iota::core::Object::new();
        for attribute in &claim.subjects[0].attributes {
            properties.insert(text(&attribute.name), text(&attribute.value).into());
        }
        let subject_id = identity_iota::core::Url::parse(text(claim.subjects[0].id.as_ref().unwrap())).unwrap();
        let credential: identity_iota::credential::Credential = CredentialBuilder::default()
            .issuer(identity_iota::core::Url::parse(text(&claim.issuer)).unwrap())
            .type_(text(&claim.claim_type))
            .subject(IdSubject::with_id_and_properties(subject_id, properties))
            .build()
            .unwrap();
        let token = block_on(self.document.create_credential_jwt(
            &credential,
            &self.storage,
            &self.fragment,
            &JwsSignatureOptions::default(),
            None,
        ))
        .unwrap();
        token.as_str().as_bytes().to_vec()
    }

    fn sign_presentation(&self, credential: &[u8], nonce: &[u8], expires: i64) -> Vec<u8> {
        let holder = identity_iota::core::Url::parse(String::from_utf8(self.did()).unwrap()).unwrap();
        let presentation: identity_iota::credential::Presentation<Jwt> =
            PresentationBuilder::new(holder, identity_iota::core::Object::new())
            .credential(Jwt::new(String::from_utf8(credential.to_vec()).unwrap()))
            .build()
            .unwrap();
        let signature = JwsSignatureOptions::default().nonce(String::from_utf8(nonce.to_vec()).unwrap());
        let options = JwtPresentationOptions::default().expiration_date(identity_iota::core::Timestamp::from_unix(expires).unwrap());
        let token = block_on(self.document.create_presentation_jwt(
            &presentation,
            &self.storage,
            &self.fragment,
            &signature,
            &options,
        ))
        .unwrap();
        token.as_str().as_bytes().to_vec()
    }
}

struct Cohort {
    issuer: Actor,
    holder: Actor,
    credential: Credential,
}

fn enrol(issuer: &Actor, tag: u8) -> (Actor, Credential) {
    let holder = actor(tag, "SCKey");
    let mut credential = crea_vc(&issuer.did(), &holder.did()).unwrap();
    credential.token = Some(issuer.sign_credential(&credential));
    (holder, credential)
}

fn cohort() -> Cohort {
    let issuer = actor(0xaa, "issuerKey");
    let (holder, credential) = enrol(&issuer, 0x11);
    Cohort { issuer, holder, credential }
}

impl Cohort {
    fn challenge(&self) -> Challenge {
        Challenge { nonce: b"12345".to_vec(), expiry: T + 10 * MINUTE }
    }

    fn presentation(&self, challenge: &Challenge) -> Presentation {
        let (vp, options) = create_vp(self.credential.clone(), &self.holder.did(), challenge).unwrap();
        let token = self.holder.sign_presentation(
            self.credential.token.as_ref().unwrap(),
            options.challenge.as_ref().unwrap(),
            options.expires.unwrap(),
        );
        sign_presentation(
            vp,
            Proof { method: options.method, challenge: options.challenge, expires: options.expires, value: token },
        )
    }

    fn published(&self, id: &[u8], model: &[u8]) -> Entry {
        self.published_by(&self.holder, &self.credential, id, model)
    }

    fn published_by(&self, holder: &Actor, credential: &Credential, id: &[u8], model: &[u8]) -> Entry {
        let token = credential.token.clone().unwrap();
        let mut record = upload_to_tangle(&token, b"QmAddress", b"round-3").pointer;
        let seal = holder.seal(record.data());
        record.set_signature(seal);
        let mut digest = payload_commitment(model);
        let seal = holder.seal(digest.data());
        digest.set_signature(seal);
        Entry {
            id: id.to_vec(),
            evidence: Evidence {
                record: Some(record),
                credential: Some(credential.clone()),
                subject_document: Some(holder.json()),
                issuer_document: Some(self.issuer.json()),
                content: Some(create_ipfs_content(model, b"{\"data\":\"digest\",\"proof\":{}}")),
                signed_digest: Some(digest),
            },
        }
    }
}

fn flip_last_bit(token: &[u8]) -> Vec<u8> {
    let mut changed = token.to_vec();
    let last = changed.len() - 1;
    changed[last] ^= 1;
    changed
}

#[test]
fn signature_is_attributed_to_the_document_that_verifies_it() {
    let holder = actor(0x11, "SCKey");
    let other = actor(0x22, "SCKey");
    let signed = holder.signed(b"data");
    assert_eq!(signer_of_data(&signed, &holder.json()), Some(holder.did()));
    assert_eq!(signer_of_data(&signed, &other.json()), None);
    assert_eq!(signer_of_data(&signed, b"{}"), None);
    assert_eq!(signer_of_data(&signed, b""), None);
    let garbled = Signable::Signed {
        data: b"data".to_vec(),
        proof: Proof { value: vec![0xff, 0xfe], ..holder.seal(b"data") },
    };
    assert_eq!(signer_of_data(&garbled, &holder.json()), None);
    let no_token = Signable::Signed {
        data: b"data".to_vec(),
        proof: Proof { value: b"a.b.c".to_vec(), ..holder.seal(b"data") },
    };
    assert_eq!(signer_of_data(&no_token, &holder.json()), None);
}

#[test]
fn presentation_signature_binds_its_nonce() {
    let c = cohort();
    let challenge = c.challenge();
    let vp = c.presentation(&challenge);
    let holder = c.holder.json();
    assert_eq!(signer_of_presentation(&vp, b"12345", Some(holder.as_slice())), Some(c.holder.did()));
    assert_eq!(signer_of_presentation(&vp, b"12346", Some(holder.as_slice())), None);
    assert_eq!(signer_of_presentation(&vp, b"", Some(holder.as_slice())), None);
    assert_eq!(signer_of_presentation(&vp, b"12345", None), None);
    assert_eq!(signer_of_presented_credential(&vp, &c.issuer.json()), Some(c.issuer.did()));
    assert_eq!(signer_of_presented_credential(&vp, &holder), None);
}

#[test]
fn signed_data_names_its_signer() {
    let holder = actor(0x11, "SCKey");
    let signed = holder.signed(b"pointer");
    assert_eq!(signer_of_data(&signed, &holder.json()), Some(holder.did()));
    assert_eq!(signer_of_data(&Signable::new(b"pointer".to_vec()), &holder.json()), None);
    let tampered = Signable::Signed { data: b"pointed".to_vec(), proof: holder.seal(b"pointer") };
    assert_eq!(signer_of_data(&tampered, &holder.json()), None);
}

#[test]
fn issued_credential_validates_against_its_issuer() {
    let c = cohort();
    assert_eq!(signer_of_credential(&c.credential, &c.issuer.json()), Some(c.issuer.did()));
    assert_eq!(validate(&c.credential, &c.issuer.json(), T), Ok(()));
}

#[test]
fn credential_with_one_bit_of_its_signature_changed_is_refused() {
    let c = cohort();
    let mut forged = c.credential.clone();
    forged.token = Some(flip_last_bit(c.credential.token.as_ref().unwrap()));
    assert_eq!(validate(&forged, &c.issuer.json(), T), Err(ValidationError::BadSignature));
    let token = c.credential.token.clone().unwrap();
    let dot = token.iter().rposition(|b| *b == b'.').unwrap();
    for position in [dot + 1, dot + 10, token.len() - 2] {
        let mut changed = token.clone();
        changed[position] ^= 2;
        let mut forged = c.credential.clone();
        forged.token = Some(changed);
        assert_eq!(validate(&forged, &c.issuer.json(), T), Err(ValidationError::BadSignature));
    }
}

#[test]
fn credential_does_not_validate_against_another_document() {
    let c = cohort();
    assert_eq!(validate(&c.credential, &c.holder.json(), T), Err(ValidationError::BadSignature));
    assert_eq!(validate(&c.credential, b"no document", T), Err(ValidationError::BadSignature));
}

#[test]
fn unsigned_credential_is_refused() {
    let c = cohort();
    let mut unsigned = c.credential.clone();
    unsigned.token = None;
    assert_eq!(validate(&unsigned, &c.issuer.json(), T), Err(ValidationError::BadSignature));
}

#[test]
fn signed_credential_that_has_lapsed_is_expired() {
    let c = cohort();
    let mut lapsed = c.credential.clone();
    lapsed.expiry = Some(T);
    assert_eq!(validate(&lapsed, &c.issuer.json(), T), Ok(()));
    assert_eq!(validate(&lapsed, &c.issuer.json(), T + 1), Err(ValidationError::Expired));
}

#[test]
fn issuance_hands_out_what_the_issuer_signed() {
    let issuer = actor(0xaa, "issuerKey");
    let holder = actor(0x11, "SCKey");
    let claim = crea_vc(&issuer.did(), &holder.did()).unwrap();
    let token = issuer.sign_credential(&claim);
    let issued = finish_issuance(claim.clone(), Some(token.clone()), &issuer.json(), T).unwrap();
    assert_eq!(issued.token, Some(token.clone()));
    assert_eq!(issued.issuer, claim.issuer);
    assert_eq!(issued.subjects, claim.subjects);
    assert_eq!(
        finish_issuance(claim.clone(), Some(flip_last_bit(&token)), &issuer.json(), T),
        Err(IssuanceError::Rejected(ValidationError::BadSignature))
    );
    assert_eq!(
        finish_issuance(claim.clone(), Some(token), &holder.json(), T),
        Err(IssuanceError::Rejected(ValidationError::BadSignature))
    );
    assert_eq!(finish_issuance(claim, None, &issuer.json(), T), Err(IssuanceError::Signing));
}

#[test]
fn presentation_is_accepted_in_time_and_refused_after_expiry() {
    let c = cohort();
    let challenge = c.challenge();
    let vp = c.presentation(&challenge);
    let issuer = c.issuer.json();
    let holder = c.holder.json();
    assert_eq!(verify_vp_at(&vp, &challenge, &issuer, Some(holder.as_slice()), T + 5 * MINUTE), Ok(()));
    assert_eq!(
        verify_vp_at(&vp, &challenge, &issuer, Some(holder.as_slice()), T + 11 * MINUTE),
        Err(ValidationError::Expired)
    );
}

#[test]
fn presentation_signed_for_another_nonce_is_refused() {
    let c = cohort();
    let issued = c.challenge();
    let other = Challenge { nonce: b"54321".to_vec(), expiry: issued.expiry };
    let vp = c.presentation(&other);
    let holder = c.holder.json();
    assert_eq!(
        verify_vp_at(&vp, &issued, &c.issuer.json(), Some(holder.as_slice()), T),
        Err(ValidationError::BadSignature)
    );
    let mut relabelled = vp.clone();
    relabelled.proof.as_mut().unwrap().challenge = Some(issued.nonce.clone());
    assert_eq!(
        verify_vp_at(&relabelled, &issued, &c.issuer.json(), Some(holder.as_slice()), T),
        Err(ValidationError::BadSignature)
    );
}

#[test]
fn presentation_is_checked_against_the_holders_own_document() {
    let c = cohort();
    let challenge = c.challenge();
    let vp = c.presentation(&challenge);
    let issuer = c.issuer.json();
    assert_eq!(
        verify_vp_at(&vp, &challenge, &issuer, Some(issuer.as_slice()), T),
        Err(ValidationError::BadSignature)
    );
    assert_eq!(verify_vp_at(&vp, &challenge, &issuer, None, T), Err(ValidationError::BadSignature));
}

#[test]
fn presentation_of_a_credential_of_another_issuer_is_refused() {
    let c = cohort();
    let challenge = c.challenge();
    let vp = c.presentation(&challenge);
    let holder = c.holder.json();
    assert_eq!(
        verify_vp_at(&vp, &challenge, &holder, Some(holder.as_slice()), T),
        Err(ValidationError::BadSignature)
    );
}

#[test]
fn presentation_with_tampered_signature_is_refused() {
    let c = cohort();
    let challenge = c.challenge();
    let mut vp = c.presentation(&challenge);
    let proof = vp.proof.as_mut().unwrap();
    proof.value = flip_last_bit(&proof.value);
    let holder = c.holder.json();
    assert_eq!(
        verify_vp_at(&vp, &challenge, &c.issuer.json(), Some(holder.as_slice()), T),
        Err(ValidationError::BadSignature)
    );
}

#[test]
fn replayed_credential_is_refused_as_subject_mismatch() {
    let c = cohort();
    let thief = actor(0x33, "SCKey");
    let challenge = c.challenge();
    let token = thief.sign_presentation(c.credential.token.as_ref().unwrap(), &challenge.nonce, challenge.expiry);
    let vp = Presentation {
        holder: thief.did(),
        credentials: vec![c.credential.clone()],
        proof: Some(Proof {
            method: b"#SCKey".to_vec(),
            challenge: Some(challenge.nonce.clone()),
            expires: Some(challenge.expiry),
            value: token,
        }),
    };
    let document = thief.json();
    assert_eq!(
        verify_vp_at(&vp, &challenge, &c.issuer.json(), Some(document.as_slice()), T),
        Err(ValidationError::SubjectMismatch)
    );
}

#[test]
fn verify_vp_reads_the_clock() {
    let c = cohort();
    let open = Challenge { nonce: b"777".to_vec(), expiry: 253_402_300_799 };
    let vp = c.presentation(&open);
    let holder = c.holder.json();
    assert_eq!(verify_vp(&vp, &open, &c.issuer.json(), Some(holder.as_slice())), Ok(()));
    let lapsed = Challenge { nonce: b"777".to_vec(), expiry: 0 };
    assert_eq!(
        verify_vp(&vp, &lapsed, &c.issuer.json(), Some(holder.as_slice())),
        Err(ValidationError::Expired)
    );
}

#[test]
fn credential_is_issued_over_the_session() {
    let issuer = actor(0xaa, "issuerKey");
    let holder = actor(0x11, "SCKey");
    let s = Session::new(issuer.did(), issuer.json());
    let (s, action) = s.advance(Event::Received(b"vc".to_vec()), None, T);
    assert_eq!(action, Action::Receive);
    assert_eq!(s.phase, Phase::AwaitingSubject);

    let (s, action) = s.advance(Event::Received(holder.did()), None, T);
    assert_eq!(action, Action::SignCredential { method: issuing_key() });
    let claim = s.pending_claim().unwrap().clone();
    assert_eq!(claim, crea_vc(&issuer.did(), &holder.did()).unwrap());

    let token = issuer.sign_credential(&claim);
    let (s, action) = s.advance(Event::Signed { serialized: Some(token.clone()) }, None, T);
    assert_eq!(action, Action::Reply(token));
    assert_eq!(s.phase, Phase::AwaitingCommand);
}

#[test]
fn credential_signed_by_someone_else_is_not_sent() {
    let issuer = actor(0xaa, "issuerKey");
    let holder = actor(0x11, "SCKey");
    let s = Session::new(issuer.did(), issuer.json());
    let (s, _) = s.advance(Event::Received(b"vc".to_vec()), None, T);
    let (s, _) = s.advance(Event::Received(holder.did()), None, T);
    let claim = s.pending_claim().unwrap().clone();
    let token = holder.sign_credential(&claim);
    let (s, action) = s.advance(Event::Signed { serialized: Some(token) }, None, T);
    assert_eq!(action, Action::Close);
    assert!(s.is_closed());
}

fn session_awaiting_presentation(c: &Cohort) -> (Session, Challenge) {
    let s = Session::new(c.issuer.did(), c.issuer.json());
    let (s, action) = s.advance(Event::Received(b"vp".to_vec()), Some(12345), T);
    assert_eq!(
        action,
        Action::Challenge { nonce: b"12345".to_vec(), expiry: b"2020-01-01T00:10:00Z".to_vec() }
    );
    let challenge = s.pending_challenge().unwrap().clone();
    assert_eq!(challenge, Challenge { nonce: b"12345".to_vec(), expiry: T + 10 * MINUTE });
    let (s, action) = s.advance(Event::Received(b"ack".to_vec()), None, T);
    assert_eq!(action, Action::Receive);
    (s, challenge)
}

/// Sends the presentation's token and answers with what it decodes to.
fn present(s: Session, vp: &Presentation, holder_document: Option<Vec<u8>>, now: i64) -> (Session, Action) {
    let token = vp.proof.as_ref().unwrap().value.clone();
    let (s, action) = s.advance(Event::Received(token.clone()), None, now);
    assert_eq!(action, Action::CheckPresentation(token));
    s.advance(Event::Checked { presentation: Some(vp.clone()), holder_document }, None, now)
}

#[test]
fn presentation_is_verified_over_the_session() {
    let c = cohort();
    let (s, challenge) = session_awaiting_presentation(&c);
    let vp = c.presentation(&challenge);
    let (s, action) = present(s, &vp, Some(c.holder.json()), T + 5 * MINUTE);
    assert_eq!(action, Action::Reply(c.issuer.did()));
    assert_eq!(s.phase, Phase::AwaitingCommand);
    assert!(s.pending_challenge().is_none());
}

#[test]
fn late_presentation_aborts_the_session() {
    let c = cohort();
    let (s, challenge) = session_awaiting_presentation(&c);
    let (s, action) = present(s, &c.presentation(&challenge), Some(c.holder.json()), T + 11 * MINUTE);
    assert_eq!(action, Action::Close);
    assert!(s.is_closed());
}

#[test]
fn presentation_is_judged_by_the_text_that_was_sent() {
    let c = cohort();
    let (s, challenge) = session_awaiting_presentation(&c);
    let vp = c.presentation(&challenge);
    let (s, _) = s.advance(Event::Received(b"some.other.text".to_vec()), None, T);
    let checked = Event::Checked { presentation: Some(vp), holder_document: Some(c.holder.json()) };
    let (s, action) = s.advance(checked, None, T);
    assert_eq!(action, Action::Close);
    assert!(s.is_closed());
}

#[test]
fn refusals_look_alike_to_the_peer() {
    let c = cohort();
    let (late_session, challenge) = session_awaiting_presentation(&c);
    let (forged_session, _) = session_awaiting_presentation(&c);
    let (unresolved_session, _) = session_awaiting_presentation(&c);
    let vp = c.presentation(&challenge);
    let mut forged = vp.clone();
    forged.proof.as_mut().unwrap().value = flip_last_bit(&vp.proof.as_ref().unwrap().value);
    let (_, one) = present(late_session, &vp, Some(c.holder.json()), T + 20 * MINUTE);
    let (_, two) = present(forged_session, &forged, Some(c.holder.json()), T + MINUTE);
    let (_, three) = present(unresolved_session, &vp, None, T + MINUTE);
    assert_eq!(one, Action::Close);
    assert_eq!(one, two);
    assert_eq!(two, three);
}

#[test]
fn challenge_cannot_be_used_twice() {
    let c = cohort();
    let (s, challenge) = session_awaiting_presentation(&c);
    let vp = c.presentation(&challenge);
    let (s, action) = present(s, &vp, Some(c.holder.json()), T + MINUTE);
    assert_eq!(action, Action::Reply(c.issuer.did()));
    let checked = Event::Checked { presentation: Some(vp), holder_document: Some(c.holder.json()) };
    let (s, action) = s.advance(checked, None, T + MINUTE);
    assert_eq!(action, Action::Close);
    assert!(s.is_closed());
}

fn stepwise(evidence: &Evidence, issuer: &[u8], now: i64) -> Result<Vec<u8>, Rejection> {
    let answers = vec![
        Answer::Record(evidence.record.clone()),
        Answer::Credential(evidence.credential.clone()),
        Answer::Document(evidence.subject_document.clone()),
        Answer::Document(evidence.issuer_document.clone()),
        Answer::Content(evidence.content.clone()),
        Answer::Commitment(evidence.signed_digest.clone()),
    ];
    let mut check = RecordCheck::new(issuer.to_vec());
    for answer in answers {
        let (next, request) = check.advance(answer, now);
        check = next;
        if check.has_ended() {
            assert_eq!(request, Request::Stop);
            break;
        }
    }
    match (check.accepted(), check.rejection()) {
        (Some(payload), None) => Ok(payload.clone()),
        (None, Some(reason)) => Err(reason),
        _ => panic!("the check has not ended"),
    }
}

fn rejected_with(c: &Cohort, evidence: Evidence, reason: Rejection) {
    assert_eq!(check_record(&evidence, &c.issuer.did(), T), Err(reason));
    assert_eq!(stepwise(&evidence, &c.issuer.did(), T), Err(reason));
}

#[test]
fn published_record_is_accepted() {
    let c = cohort();
    let entry = c.published(b"msg-a", b"{\"weights\":[1,2]}");
    assert_eq!(check_record(&entry.evidence, &c.issuer.did(), T), Ok(b"{\"weights\":[1,2]}".to_vec()));
    assert_eq!(stepwise(&entry.evidence, &c.issuer.did(), T), Ok(b"{\"weights\":[1,2]}".to_vec()));
}

#[test]
fn check_asks_for_each_step_in_turn() {
    let c = cohort();
    let e = c.published(b"msg-a", b"model").evidence;
    let token = c.credential.token.clone().unwrap();
    let check = RecordCheck::new(c.issuer.did());
    let (check, request) = check.advance(Answer::Record(e.record), T);
    assert_eq!(request, Request::DecodeCredential(token));
    let (check, request) = check.advance(Answer::Credential(e.credential), T);
    assert_eq!(request, Request::Resolve { did: c.holder.did() });
    let (check, request) = check.advance(Answer::Document(e.subject_document), T);
    assert_eq!(request, Request::Resolve { did: c.issuer.did() });
    let (check, request) = check.advance(Answer::Document(e.issuer_document), T);
    assert_eq!(request, Request::Fetch { address: b"QmAddress".to_vec() });
    let (check, request) = check.advance(Answer::Content(e.content), T);
    assert_eq!(request, Request::DecodeCommitment(b"{\"data\":\"digest\",\"proof\":{}}".to_vec()));
    assert!(!check.has_ended());
    let (check, request) = check.advance(Answer::Commitment(e.signed_digest), T);
    assert_eq!(request, Request::Stop);
    assert_eq!(check.accepted(), Some(&b"model".to_vec()));
}

#[test]
fn step_reads_the_clock() {
    let c = cohort();
    let mut e = c.published(b"msg-a", b"model").evidence;
    e.credential.as_mut().unwrap().expiry = Some(0);
    let check = RecordCheck::new(c.issuer.did());
    let (check, _) = check.step(Answer::Record(e.record));
    let (check, _) = check.step(Answer::Credential(e.credential));
    let (check, _) = check.step(Answer::Document(e.subject_document));
    let (check, request) = check.step(Answer::Document(e.issuer_document));
    assert_eq!(request, Request::Stop);
    assert_eq!(check.rejection(), Some(Rejection::Credential(ValidationError::Expired)));
}

#[test]
fn pointer_signed_by_another_than_the_subject_is_rejected() {
    let c = cohort();
    let stranger = actor(0x44, "SCKey");
    let mut e = c.published(b"msg-a", b"model").evidence;
    let data = e.record.as_ref().unwrap().data().clone();
    e.record = Some(stranger.signed(&data));
    rejected_with(&c, e, Rejection::PointerSignature);

    let mut e = c.published(b"msg-a", b"model").evidence;
    e.subject_document = Some(stranger.json());
    rejected_with(&c, e, Rejection::PointerSignature);
}

#[test]
fn pointer_that_was_altered_is_rejected() {
    let c = cohort();
    let mut e = c.published(b"msg-a", b"model").evidence;
    let seal = e.record.as_ref().unwrap().signature().unwrap().clone();
    let mut data = c.credential.token.clone().unwrap();
    data.extend_from_slice(b"\nQmAnotherAddress");
    e.record = Some(Signable::Signed { data, proof: seal });
    rejected_with(&c, e, Rejection::PointerSignature);
}

#[test]
fn credential_that_fails_issuer_validation_is_rejected() {
    let c = cohort();
    let mut forged = c.published(b"msg-a", b"model").evidence;
    let mut data = flip_last_bit(c.credential.token.as_ref().unwrap());
    data.extend_from_slice(b"\nQmAddress");
    forged.record = Some(c.holder.signed(&data));
    rejected_with(&c, forged, Rejection::Credential(ValidationError::BadSignature));

    let mut lapsed = c.published(b"msg-a", b"model").evidence;
    lapsed.credential.as_mut().unwrap().expiry = Some(T - 1);
    rejected_with(&c, lapsed, Rejection::Credential(ValidationError::Expired));

    let mut hollow = c.published(b"msg-a", b"model").evidence;
    hollow.credential.as_mut().unwrap().claim_type.clear();
    rejected_with(&c, hollow, Rejection::Credential(ValidationError::Malformed));

    let mut wrong_document = c.published(b"msg-a", b"model").evidence;
    wrong_document.issuer_document = Some(c.holder.json());
    rejected_with(&c, wrong_document, Rejection::Credential(ValidationError::BadSignature));
}

#[test]
fn credential_is_judged_by_the_line_that_was_anchored() {
    let c = cohort();
    let mut e = c.published(b"msg-a", b"model").evidence;
    e.credential.as_mut().unwrap().token = Some(b"another.token.altogether".to_vec());
    assert_eq!(check_record(&e, &c.issuer.did(), T), Ok(b"model".to_vec()));
    assert_eq!(stepwise(&e, &c.issuer.did(), T), Ok(b"model".to_vec()));
    e.credential.as_mut().unwrap().token = None;
    assert_eq!(check_record(&e, &c.issuer.did(), T), Ok(b"model".to_vec()));
    assert_eq!(stepwise(&e, &c.issuer.did(), T), Ok(b"model".to_vec()));
}

#[test]
fn credential_of_another_issuer_is_rejected() {
    let c = cohort();
    let e = c.published(b"msg-a", b"model").evidence;
    let elsewhere = actor(0xbb, "issuerKey");
    assert_eq!(
        check_record(&e, &elsewhere.did(), T),
        Err(Rejection::Credential(ValidationError::BadSignature))
    );
    assert_eq!(
        stepwise(&e, &elsewhere.did(), T),
        Err(Rejection::Credential(ValidationError::BadSignature))
    );
}

#[test]
fn digest_signed_by_another_than_the_subject_is_rejected() {
    let c = cohort();
    let stranger = actor(0x44, "SCKey");
    let mut e = c.published(b"msg-a", b"model").evidence;
    e.signed_digest = Some(stranger.signed(&content_digest(b"model")));
    rejected_with(&c, e, Rejection::ContentSignature);

    let mut unsigned = c.published(b"msg-a", b"model").evidence;
    unsigned.signed_digest = Some(Signable::new(content_digest(b"model")));
    rejected_with(&c, unsigned, Rejection::ContentSignature);
}

#[test]
fn tampered_payload_is_rejected() {
    let c = cohort();
    let mut e = c.published(b"msg-a", b"model").evidence;
    e.content = Some(create_ipfs_content(b"modem", b"{\"data\":\"digest\",\"proof\":{}}"));
    rejected_with(&c, e, Rejection::DigestMismatch);
}

#[test]
fn digest_of_another_payload_is_rejected() {
    let c = cohort();
    let mut e = c.published(b"msg-a", b"model").evidence;
    e.signed_digest = Some(c.holder.signed(&content_digest(b"another model")));
    rejected_with(&c, e, Rejection::DigestMismatch);
}

#[test]
fn missing_answers_are_reported() {
    let c = cohort();
    let mut e = c.published(b"msg-a", b"model").evidence;
    e.subject_document = None;
    rejected_with(&c, e, Rejection::Unresolved);
    let mut e = c.published(b"msg-a", b"model").evidence;
    e.issuer_document = None;
    rejected_with(&c, e, Rejection::Unresolved);
    let mut e = c.published(b"msg-a", b"model").evidence;
    e.content = None;
    rejected_with(&c, e, Rejection::Fetch);
    let mut e = c.published(b"msg-a", b"model").evidence;
    e.content = Some(b"model".to_vec());
    rejected_with(&c, e, Rejection::MalformedContent);
    let mut e = c.published(b"msg-a", b"model").evidence;
    e.signed_digest = None;
    rejected_with(&c, e, Rejection::MalformedContent);
    let mut e = c.published(b"msg-a", b"model").evidence;
    e.credential = None;
    rejected_with(&c, e, Rejection::MalformedRecord);
    let mut e = c.published(b"msg-a", b"model").evidence;
    e.record = None;
    rejected_with(&c, e, Rejection::MalformedRecord);
}

#[test]
fn first_failure_decides() {
    let c = cohort();
    let stranger = actor(0x44, "SCKey");
    let mut e = c.published(b"msg-a", b"model").evidence;
    let data = e.record.as_ref().unwrap().data().clone();
    e.record = Some(stranger.signed(&data));
    e.credential.as_mut().unwrap().expiry = Some(0);
    e.signed_digest = Some(stranger.signed(b"00"));
    rejected_with(&c, e, Rejection::PointerSignature);

    let mut e = c.published(b"msg-a", b"model").evidence;
    e.credential.as_mut().unwrap().expiry = Some(0);
    e.content = None;
    rejected_with(&c, e, Rejection::Credential(ValidationError::Expired));

    let mut e = c.published(b"msg-a", b"model").evidence;
    e.signed_digest = Some(stranger.signed(b"00"));
    rejected_with(&c, e, Rejection::ContentSignature);
}

#[test]
fn two_holders_are_collected_in_either_order() {
    let c = cohort();
    let (second, credential) = enrol(&c.issuer, 0x22);
    let of_a = c.published(b"msg-a", b"model of a");
    let of_b = c.published_by(&second, &credential, b"msg-b", b"model of b");
    let issuer = c.issuer.did();
    let forward = get_models_at(&vec![of_a.clone(), of_b.clone()], 2, &issuer, T);
    let backward = get_models_at(&vec![of_b, of_a], 2, &issuer, T);
    assert_eq!(forward, vec![b"model of a".to_vec(), b"model of b".to_vec()]);
    assert_eq!(backward, vec![b"model of b".to_vec(), b"model of a".to_vec()]);
}

#[test]
fn holder_cannot_publish_under_anothers_credential() {
    let c = cohort();
    let (second, _) = enrol(&c.issuer, 0x22);
    let stolen = c.published_by(&second, &c.credential, b"msg-s", b"model");
    assert_eq!(check_record(&stolen.evidence, &c.issuer.did(), T), Err(Rejection::PointerSignature));
    let mut disguised = stolen.evidence.clone();
    disguised.subject_document = Some(c.holder.json());
    assert_eq!(check_record(&disguised, &c.issuer.did(), T), Err(Rejection::PointerSignature));
}

#[test]
fn record_listed_twice_is_checked_once() {
    let c = cohort();
    let a = c.published(b"msg-a", b"model of a");
    let b = c.published(b"msg-b", b"model of b");
    let listed = vec![a.clone(), a.clone(), b, a];
    assert_eq!(
        get_models_at(&listed, 2, &c.issuer.did(), T),
        vec![b"model of a".to_vec(), b"model of b".to_vec()]
    );
}

#[test]
fn same_contribution_under_two_identifiers_is_delivered_twice() {
    let c = cohort();
    let first = c.published(b"msg-1", b"model of a");
    let second = c.published(b"msg-2", b"model of a");
    assert_eq!(
        get_models_at(&vec![first, second], 2, &c.issuer.did(), T),
        vec![b"model of a".to_vec(), b"model of a".to_vec()]
    );
}

#[test]
fn reading_stops_at_the_target() {
    let c = cohort();
    let entries =
        vec![c.published(b"msg-a", b"a"), c.published(b"msg-b", b"b"), c.published(b"msg-c", b"c")];
    assert_eq!(get_models_at(&entries, 1, &c.issuer.did(), T), vec![b"a".to_vec()]);
    assert_eq!(get_models_at(&entries, 2, &c.issuer.did(), T), vec![b"a".to_vec(), b"b".to_vec()]);
    assert_eq!(get_models_at(&entries, 0, &c.issuer.did(), T), Vec::<Vec<u8>>::new());
    assert_eq!(get_models_at(&Vec::new(), 2, &c.issuer.did(), T), Vec::<Vec<u8>>::new());
}

#[test]
fn rejected_record_counts_as_seen_but_contributes_nothing() {
    let c = cohort();
    let mut bad = c.published(b"msg-x", b"forged");
    bad.evidence.content = Some(create_ipfs_content(b"forgery", b"{}"));
    let entries = vec![bad, c.published(b"msg-a", b"a"), c.published(b"msg-b", b"b")];
    assert_eq!(get_models_at(&entries, 2, &c.issuer.did(), T), vec![b"a".to_vec()]);
    assert_eq!(get_models_at(&entries, 3, &c.issuer.did(), T), vec![b"a".to_vec(), b"b".to_vec()]);
}

#[test]
fn get_models_reads_the_clock() {
    let c = cohort();
    let a = c.published(b"msg-a", b"model of a");
    let mut lapsed = c.published(b"msg-b", b"model of b");
    lapsed.evidence.credential.as_mut().unwrap().expiry = Some(0);
    assert_eq!(get_models(&vec![lapsed, a], 2, &c.issuer.did()), vec![b"model of a".to_vec()]);
}
