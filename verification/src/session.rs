//! The authorization session: the per-connection handshake between a
//! credential requester and the issuer that also verifies presentations.
//!
//! The session decides; the caller performs. Each step takes what happened
//! on the connection (or what the caller found out when asked) and returns
//! the next state together with what to do next.
use vstd::prelude::*;
use vstd::string::*;
use crate::bytes::{as_opt_slice, ascii, bytes_eq, literal, opt_view, to_vec};
use crate::challenge::{
    challenge_at,
    challenge_from,
    secure_random_u64,
    Challenge,
    ChallengeView,
    CHALLENGE_WINDOW_SECS,
};
use crate::clock::{clock_unix, representable, rfc3339_text, timestamp_text};
use crate::credential::{
    access_attributes,
    access_claim_type,
    access_label,
    finish_issuance,
    issuance_result,
    issuance_signer,
    issuer_key,
    issuing_key,
    issue_parsed,
    issue_result,
    label_name,
    AttributeView,
    Credential,
    CredentialView,
};
use crate::did::{canonical_did, parse_did};
use crate::presentation::{
    presentation_result,
    presentation_signer,
    presented_credential_signer,
    verify_vp_at,
    Presentation,
    PresentationView,
};

verus! {

/// The number of unrecognised commands in a row after which a session is
/// closed, unless the caller chooses otherwise.
pub const MAX_STRIKES: u32 = 10;

/// What a peer asks of the session.
#[derive(Clone, Copy, Debug, PartialEq, Eq, Structural)]
pub enum Command {
    /// Issue a credential to the identifier that follows.
    IssueCredential,
    /// Start the challenge-response check of a presentation.
    VerifyPresentation,
    /// End the session.
    Close,
    /// Anything else.
    Unknown,
}

/// The message that asks for a credential: the wire form of the command
/// issue-credential.
pub open spec fn issue_token() -> Seq<u8> {
    ascii("vc"@)
}

/// The message that starts a presentation check: the wire form of the
/// command verify-presentation.
pub open spec fn verify_token() -> Seq<u8> {
    ascii("vp"@)
}

/// The message that ends the session: the wire form of the command close.
pub open spec fn close_token() -> Seq<u8> {
    ascii("shutdown"@)
}

/// The command that a message stands for.
pub open spec fn command_of(message: Seq<u8>) -> Command {
    if message == issue_token() {
        Command::IssueCredential
    } else if message == verify_token() {
        Command::VerifyPresentation
    } else if message == close_token() {
        Command::Close
    } else {
        Command::Unknown
    }
}

/// Whether `message` is the ASCII text `token`.
fn is_token(message: &[u8], token: &str) -> (r: bool)
    requires
        is_ascii(token),
    ensures
        r == (message@ == ascii(token@)),
{
    let t = literal(token);
    bytes_eq(message, t.as_slice())
}

/// Reads a message as a command: `vc` asks for a credential
/// (issue-credential), `vp` starts a presentation check
/// (verify-presentation), `shutdown` ends the session (close); every other
/// message is unknown.
pub fn parse_command(message: &[u8]) -> (c: Command)
    ensures
        c == command_of(message@),
{
    proof {
        reveal_strlit("vc");
        reveal_strlit("vp");
        reveal_strlit("shutdown");
    }
    if is_token(message, "vc") {
        Command::IssueCredential
    } else if is_token(message, "vp") {
        Command::VerifyPresentation
    } else if is_token(message, "shutdown") {
        Command::Close
    } else {
        Command::Unknown
    }
}

/// Where a session stands.
///
/// `AwaitingSubject` and `AwaitingSignature` make up the issuing of a
/// credential; `AwaitingAck`, `AwaitingPresentation` and `AwaitingReport`
/// make up the verification of a presentation.
#[derive(Clone, Debug, PartialEq, Eq)]
pub enum Phase {
    /// Ready for the peer's next command.
    AwaitingCommand,
    /// A credential was asked for; the subject's identifier comes next.
    AwaitingSubject,
    /// The claim is with the identity provider for signing.
    AwaitingSignature { claim: Credential },
    /// Nonce and expiry were sent; the peer's acknowledgement comes next.
    AwaitingAck { challenge: Challenge },
    /// The challenge was acknowledged; the presentation comes next.
    AwaitingPresentation { challenge: Challenge },
    /// The presentation is being decoded and its holder's document
    /// resolved.
    AwaitingReport { challenge: Challenge, text: Vec<u8> },
    /// The session is over.
    Closed,
}

/// One connection's handshake state.
#[derive(Clone, Debug, PartialEq, Eq)]
pub struct Session {
    pub phase: Phase,
    /// Unrecognised commands received in a row.
    pub strikes: u32,
    /// The identifier of the issuer that runs this session.
    pub issuer: Vec<u8>,
    /// The issuer's own DID document, serialized.
    pub document: Vec<u8>,
    /// Seconds for which a challenge of this session stays valid.
    pub window: u32,
    /// Unrecognised commands in a row that close the session.
    pub max_strikes: u32,
}

/// What happened since the last step.
#[derive(Clone, Debug, PartialEq, Eq)]
pub enum Event {
    /// The peer sent a message.
    Received(Vec<u8>),
    /// Reading from or writing to the peer failed.
    TransportFailed,
    /// The identity provider answered a signing request: the serialized
    /// signed credential, absent where signing failed.
    Signed { serialized: Option<Vec<u8>> },
    /// The answer to a checking request: the presentation that the text
    /// decodes to, absent where it is none, and the document of its holder,
    /// absent where it could not be resolved.
    Checked { presentation: Option<Presentation>, holder_document: Option<Vec<u8>> },
}

/// What the caller is to do next.
#[derive(Clone, Debug, PartialEq, Eq)]
pub enum Action {
    /// Read the peer's next message.
    Receive,
    /// Send these bytes, then read the peer's next message.
    Reply(Vec<u8>),
    /// Send the challenge, first its nonce and then its expiry as RFC 3339
    /// text, then read the peer's next message.
    Challenge { nonce: Vec<u8>, expiry: Vec<u8> },
    /// Have the identity provider sign the pending claim with the issuer's
    /// key `method`, and report with `Event::Signed`.
    SignCredential { method: Vec<u8> },
    /// Decode this text as a presentation, resolve the document of its
    /// holder, and report with `Event::Checked`.
    CheckPresentation(Vec<u8>),
    /// Shut the connection down. No reason is given to the peer.
    Close,
}

/// Mathematical content of a [`Phase`].
pub enum PhaseView {
    AwaitingCommand,
    AwaitingSubject,
    AwaitingSignature { claim: CredentialView },
    AwaitingAck { challenge: ChallengeView },
    AwaitingPresentation { challenge: ChallengeView },
    AwaitingReport { challenge: ChallengeView, text: Seq<u8> },
    Closed,
}

/// Mathematical content of a [`Session`].
pub struct SessionView {
    pub phase: PhaseView,
    pub strikes: nat,
    pub issuer: Seq<u8>,
    pub document: Seq<u8>,
    pub window: nat,
    pub max_strikes: nat,
}

/// Mathematical content of an [`Event`].
pub enum EventView {
    Received(Seq<u8>),
    TransportFailed,
    Signed { serialized: Option<Seq<u8>> },
    Checked { presentation: Option<PresentationView>, holder_document: Option<Seq<u8>> },
}

/// Mathematical content of an [`Action`].
pub enum ActionView {
    Receive,
    Reply(Seq<u8>),
    Challenge { nonce: Seq<u8>, expiry: Seq<u8> },
    SignCredential { method: Seq<u8> },
    CheckPresentation(Seq<u8>),
    Close,
}

impl View for Phase {
    type V = PhaseView;

    open spec fn view(&self) -> PhaseView {
        match self {
            Phase::AwaitingCommand => PhaseView::AwaitingCommand,
            Phase::AwaitingSubject => PhaseView::AwaitingSubject,
            Phase::AwaitingSignature { claim } => PhaseView::AwaitingSignature { claim: claim@ },
            Phase::AwaitingAck { challenge } => PhaseView::AwaitingAck { challenge: challenge@ },
            Phase::AwaitingPresentation { challenge } => PhaseView::AwaitingPresentation {
                challenge: challenge@,
            },
            Phase::AwaitingReport { challenge, text } => PhaseView::AwaitingReport {
                challenge: challenge@,
                text: text@,
            },
            Phase::Closed => PhaseView::Closed,
        }
    }
}

impl View for Session {
    type V = SessionView;

    open spec fn view(&self) -> SessionView {
        SessionView {
            phase: self.phase@,
            strikes: self.strikes as nat,
            issuer: self.issuer@,
            document: self.document@,
            window: self.window as nat,
            max_strikes: self.max_strikes as nat,
        }
    }
}

impl View for Event {
    type V = EventView;

    open spec fn view(&self) -> EventView {
        match self {
            Event::Received(m) => EventView::Received(m@),
            Event::TransportFailed => EventView::TransportFailed,
            Event::Signed { serialized } => EventView::Signed { serialized: opt_view(*serialized) },
            Event::Checked { presentation, holder_document } => EventView::Checked {
                presentation: match presentation {
                    Some(p) => Some(p@),
                    None => None,
                },
                holder_document: opt_view(*holder_document),
            },
        }
    }
}

impl View for Action {
    type V = ActionView;

    open spec fn view(&self) -> ActionView {
        match self {
            Action::Receive => ActionView::Receive,
            Action::Reply(m) => ActionView::Reply(m@),
            Action::Challenge { nonce, expiry } => ActionView::Challenge {
                nonce: nonce@,
                expiry: expiry@,
            },
            Action::SignCredential { method } => ActionView::SignCredential { method: method@ },
            Action::CheckPresentation(m) => ActionView::CheckPresentation(m@),
            Action::Close => ActionView::Close,
        }
    }
}

impl SessionView {
    /// The session in another phase.
    pub open spec fn moved_to(self, phase: PhaseView) -> SessionView {
        SessionView { phase, ..self }
    }

    /// The session in another phase, with the run of unrecognised commands
    /// broken.
    pub open spec fn resumed_in(self, phase: PhaseView) -> SessionView {
        SessionView { phase, strikes: 0, ..self }
    }

    /// The session ended, and the order to shut the connection down.
    pub open spec fn aborted(self) -> (SessionView, ActionView) {
        (self.moved_to(PhaseView::Closed), ActionView::Close)
    }

    /// Whether the session is issuing a credential.
    pub open spec fn is_issuing(self) -> bool {
        self.phase is AwaitingSubject || self.phase is AwaitingSignature
    }

    /// Whether the session is verifying a presentation.
    pub open spec fn is_verifying(self) -> bool {
        self.phase is AwaitingAck || self.phase is AwaitingPresentation
            || self.phase is AwaitingReport
    }

    /// Whether the step on `event` issues a challenge.
    pub open spec fn draws_challenge(self, event: EventView) -> bool {
        self.phase is AwaitingCommand && match event {
            EventView::Received(m) => command_of(m) == Command::VerifyPresentation,
            _ => false,
        }
    }

    /// What a command does to a session that awaits one. `entropy` is the
    /// number drawn for a challenge, absent where none could be drawn.
    pub open spec fn on_command(self, command: Command, entropy: Option<u64>, now: int) -> (
        SessionView,
        ActionView,
    ) {
        match command {
            Command::IssueCredential => (
                self.resumed_in(PhaseView::AwaitingSubject),
                ActionView::Receive,
            ),
            Command::VerifyPresentation => match entropy {
                Some(n) => match challenge_at(n, now, self.window as int) {
                    Some(challenge) => (
                        self.resumed_in(PhaseView::AwaitingAck { challenge }),
                        ActionView::Challenge {
                            nonce: challenge.nonce,
                            expiry: rfc3339_text(challenge.expiry),
                        },
                    ),
                    None => self.aborted(),
                },
                None => self.aborted(),
            },
            Command::Close => self.aborted(),
            Command::Unknown => if self.strikes + 1 >= self.max_strikes {
                self.aborted()
            } else {
                (SessionView { strikes: self.strikes + 1, ..self }, ActionView::Receive)
            },
        }
    }

    /// The transition function of the session: the state after `event` and
    /// what the caller is to do next.
    ///
    /// A closed session stays closed. A transport failure, an event that the
    /// phase does not expect, and every failed issuance or verification end
    /// the session with `Close`, which carries no reason. A presentation is
    /// taken with the text that the peer sent as its signed form, whatever
    /// form the answer names.
    pub open spec fn step(self, event: EventView, entropy: Option<u64>, now: int) -> (
        SessionView,
        ActionView,
    ) {
        match (self.phase, event) {
            (PhaseView::Closed, _) => (self, ActionView::Close),
            (PhaseView::AwaitingCommand, EventView::Received(m)) => self.on_command(
                command_of(m),
                entropy,
                now,
            ),
            (PhaseView::AwaitingSubject, EventView::Received(m)) => match issue_result(
                Some(self.issuer),
                canonical_did(m),
                access_claim_type(),
                seq![AttributeView { name: label_name(), value: access_label() }],
            ) {
                Ok(claim) => (
                    self.moved_to(PhaseView::AwaitingSignature { claim }),
                    ActionView::SignCredential { method: issuer_key() },
                ),
                Err(_) => self.aborted(),
            },
            (PhaseView::AwaitingSignature { claim }, EventView::Signed { serialized }) => match (
                serialized,
                issuance_result(claim, serialized, issuance_signer(serialized, self.document), now),
            ) {
                (Some(text), Ok(_)) => (
                    self.moved_to(PhaseView::AwaitingCommand),
                    ActionView::Reply(text),
                ),
                _ => self.aborted(),
            },
            (PhaseView::AwaitingAck { challenge }, EventView::Received(_)) => (
                self.moved_to(PhaseView::AwaitingPresentation { challenge }),
                ActionView::Receive,
            ),
            (PhaseView::AwaitingPresentation { challenge }, EventView::Received(m)) => (
                self.moved_to(PhaseView::AwaitingReport { challenge, text: m }),
                ActionView::CheckPresentation(m),
            ),
            (
                PhaseView::AwaitingReport { challenge, text },
                EventView::Checked { presentation: Some(decoded), holder_document },
            ) => if presentation_result(
                decoded.presented_as(text),
                challenge,
                presented_credential_signer(decoded, self.document),
                presentation_signer(decoded.presented_as(text), challenge.nonce, holder_document),
                now,
            ) is Ok {
                (self.moved_to(PhaseView::AwaitingCommand), ActionView::Reply(self.issuer))
            } else {
                self.aborted()
            },
            _ => self.aborted(),
        }
    }
}

impl Session {
    /// A session of the issuer `issuer`, whose DID document is `document`,
    /// that awaits its first command, with a challenge window of `window`
    /// seconds, closing after `max_strikes` unrecognised commands in a row.
    pub fn with_options(issuer: Vec<u8>, document: Vec<u8>, window: u32, max_strikes: u32) -> (r:
        Session)
        ensures
            r@ == (SessionView {
                phase: PhaseView::AwaitingCommand,
                strikes: 0,
                issuer: issuer@,
                document: document@,
                window: window as nat,
                max_strikes: max_strikes as nat,
            }),
    {
        Session { phase: Phase::AwaitingCommand, strikes: 0, issuer, document, window, max_strikes }
    }

    /// A session of the issuer `issuer`, whose DID document is `document`,
    /// with a ten-minute challenge window, closing after ten unrecognised
    /// commands in a row.
    pub fn new(issuer: Vec<u8>, document: Vec<u8>) -> (r: Session)
        ensures
            r@ == (SessionView {
                phase: PhaseView::AwaitingCommand,
                strikes: 0,
                issuer: issuer@,
                document: document@,
                window: CHALLENGE_WINDOW_SECS as nat,
                max_strikes: MAX_STRIKES as nat,
            }),
    {
        Session::with_options(issuer, document, CHALLENGE_WINDOW_SECS, MAX_STRIKES)
    }

    /// Whether the session is over.
    pub fn is_closed(&self) -> (r: bool)
        ensures
            r == (self@.phase is Closed),
    {
        match &self.phase {
            Phase::Closed => true,
            _ => false,
        }
    }

    /// The claim that is with the identity provider for signing, if any.
    pub fn pending_claim(&self) -> (r: Option<&Credential>)
        ensures
            match r {
                Some(c) => self@.phase == (PhaseView::AwaitingSignature { claim: c@ }),
                None => !(self@.phase is AwaitingSignature),
            },
    {
        match &self.phase {
            Phase::AwaitingSignature { claim } => Some(claim),
            _ => None,
        }
    }

    /// The challenge that the session has issued and not yet settled, if any.
    pub fn pending_challenge(&self) -> (r: Option<&Challenge>)
        ensures
            match r {
                Some(c) => self@.is_verifying() && (self@.phase == (PhaseView::AwaitingAck {
                    challenge: c@,
                }) || self@.phase == (PhaseView::AwaitingPresentation { challenge: c@ })
                    || (self@.phase is AwaitingReport && self@.phase->AwaitingReport_challenge
                    == c@)),
                None => !self@.is_verifying(),
            },
    {
        match &self.phase {
            Phase::AwaitingAck { challenge } => Some(challenge),
            Phase::AwaitingPresentation { challenge } => Some(challenge),
            Phase::AwaitingReport { challenge, .. } => Some(challenge),
            _ => None,
        }
    }

    /// Whether the next step on `event` draws a number for a challenge.
    pub fn draws_challenge(&self, event: &Event) -> (r: bool)
        ensures
            r == self@.draws_challenge(event@),
    {
        match &self.phase {
            Phase::AwaitingCommand => match event {
                Event::Received(m) => parse_command(m.as_slice()) == Command::VerifyPresentation,
                _ => false,
            },
            _ => false,
        }
    }

    fn abort(self) -> (r: (Session, Action))
        ensures
            (r.0@, r.1@) == self@.aborted(),
    {
        let Session { phase: _, strikes, issuer, document, window, max_strikes } = self;
        (Session { phase: Phase::Closed, strikes, issuer, document, window, max_strikes }, Action::Close)
    }

    fn on_command(self, command: Command, entropy: Option<u64>, now: i64) -> (r: (Session, Action))
        requires
            self@.phase is AwaitingCommand,
        ensures
            (r.0@, r.1@) == self@.on_command(command, entropy, now as int),
    {
        match command {
            Command::IssueCredential => {
                let Session { phase: _, strikes: _, issuer, document, window, max_strikes } = self;
                (
                    Session { phase: Phase::AwaitingSubject, strikes: 0, issuer, document, window, max_strikes },
                    Action::Receive,
                )
            },
            Command::VerifyPresentation => {
                let challenge = match entropy {
                    Some(n) => challenge_from(n, now, self.window),
                    None => None,
                };
                match challenge {
                    Some(challenge) => {
                        let nonce = to_vec(challenge.nonce.as_slice());
                        // A challenge is only made with an expiry that has
                        // a calendar text.
                        match timestamp_text(challenge.expiry) {
                            Some(expiry) => {
                                let Session {
                                    phase: _,
                                    strikes: _,
                                    issuer,
                                    document,
                                    window,
                                    max_strikes,
                                } = self;
                                (
                                    Session {
                                        phase: Phase::AwaitingAck { challenge },
                                        strikes: 0,
                                        issuer,
                                        document,
                                        window,
                                        max_strikes,
                                    },
                                    Action::Challenge { nonce, expiry },
                                )
                            },
                            None => {
                                assert(false);
                                self.abort()
                            },
                        }
                    },
                    None => self.abort(),
                }
            },
            Command::Close => self.abort(),
            Command::Unknown => {
                if self.strikes >= self.max_strikes || self.strikes + 1 >= self.max_strikes {
                    self.abort()
                } else {
                    let Session { phase, strikes, issuer, document, window, max_strikes } = self;
                    (Session { phase, strikes: strikes + 1, issuer, document, window, max_strikes }, Action::Receive)
                }
            },
        }
    }

    /// One step of the session, with the number drawn for a challenge and
    /// the clock reading given: the state after `event` and what to do next,
    /// exactly as [`SessionView::step`] says.
    pub fn advance(self, event: Event, entropy: Option<u64>, now: i64) -> (r: (Session, Action))
        ensures
            (r.0@, r.1@) == self@.step(event@, entropy, now as int),
    {
        let Session { phase, strikes, issuer, document, window, max_strikes } = self;
        match (phase, event) {
            (Phase::Closed, _) => (
                Session { phase: Phase::Closed, strikes, issuer, document, window, max_strikes },
                Action::Close,
            ),
            (Phase::AwaitingCommand, Event::Received(m)) => {
                let command = parse_command(m.as_slice());
                let s = Session { phase: Phase::AwaitingCommand, strikes, issuer, document, window, max_strikes };
                s.on_command(command, entropy, now)
            },
            (Phase::AwaitingSubject, Event::Received(m)) => {
                proof {
                    reveal_strlit("AccessoSC");
                }
                let subject = parse_did(m.as_slice());
                let own = to_vec(issuer.as_slice());
                match issue_parsed(Some(own), subject, literal("AccessoSC"), access_attributes()) {
                    Ok(claim) => (
                        Session {
                            phase: Phase::AwaitingSignature { claim },
                            strikes,
                            issuer,
                            document,
                            window,
                            max_strikes,
                        },
                        Action::SignCredential { method: issuing_key() },
                    ),
                    Err(_) => (
                        Session { phase: Phase::Closed, strikes, issuer, document, window, max_strikes },
                        Action::Close,
                    ),
                }
            },
            (Phase::AwaitingSignature { claim }, Event::Signed { serialized }) => {
                let text = match &serialized {
                    Some(t) => Some(to_vec(t.as_slice())),
                    None => None,
                };
                let issued = finish_issuance(claim, serialized, document.as_slice(), now);
                match (text, issued) {
                    (Some(text), Ok(_)) => (
                        Session { phase: Phase::AwaitingCommand, strikes, issuer, document, window, max_strikes },
                        Action::Reply(text),
                    ),
                    _ => (
                        Session { phase: Phase::Closed, strikes, issuer, document, window, max_strikes },
                        Action::Close,
                    ),
                }
            },
            (Phase::AwaitingAck { challenge }, Event::Received(_)) => (
                Session {
                    phase: Phase::AwaitingPresentation { challenge },
                    strikes,
                    issuer,
                    document,
                    window,
                    max_strikes,
                },
                Action::Receive,
            ),
            (Phase::AwaitingPresentation { challenge }, Event::Received(m)) => {
                let text = to_vec(m.as_slice());
                (
                    Session {
                        phase: Phase::AwaitingReport { challenge, text },
                        strikes,
                        issuer,
                        document,
                        window,
                        max_strikes,
                    },
                    Action::CheckPresentation(m),
                )
            },
            (
                Phase::AwaitingReport { challenge, text },
                Event::Checked { presentation: Some(decoded), holder_document },
            ) => {
                let vp = decoded.presented_as(text);
                assert(presented_credential_signer(vp@, document@) == presented_credential_signer(
                    decoded@,
                    document@,
                ));
                match verify_vp_at(
                    &vp,
                    &challenge,
                    document.as_slice(),
                    as_opt_slice(&holder_document),
                    now,
                ) {
                    Ok(_) => {
                        let own = to_vec(issuer.as_slice());
                        (
                            Session {
                                phase: Phase::AwaitingCommand,
                                strikes,
                                issuer,
                                document,
                                window,
                                max_strikes,
                            },
                            Action::Reply(own),
                        )
                    },
                    Err(_) => (
                        Session { phase: Phase::Closed, strikes, issuer, document, window, max_strikes },
                        Action::Close,
                    ),
                }
            },
            _ => (Session { phase: Phase::Closed, strikes, issuer, document, window, max_strikes }, Action::Close),
        }
    }

    /// One step of the session: the state after `event` and what to do next.
    ///
    /// Where the step issues a challenge, a number is drawn from the secure
    /// generator; the clock is read once. The outcome is the one that
    /// [`SessionView::step`] gives for what was drawn and read.
    pub fn step(self, event: Event) -> (r: (Session, Action))
        ensures
            exists|entropy: Option<u64>, now: int|
                (r.0@, r.1@) == #[trigger] self@.step(event@, entropy, now),
    {
        let entropy = if self.draws_challenge(&event) {
            secure_random_u64()
        } else {
            None
        };
        let now = clock_unix();
        self.advance(event, entropy, now)
    }
}

/// The challenge goes out whole before the acknowledgement is awaited: the
/// step on the verify command sends the nonce and the expiry's calendar
/// text together, and nothing is sent on the acknowledgement or on the
/// presentation's arrival.
pub proof fn lemma_challenge_precedes_acknowledgement(
    s: SessionView,
    message: Seq<u8>,
    entropy: Option<u64>,
    now: int,
)
    ensures
        s.phase is AwaitingCommand && command_of(message) == Command::VerifyPresentation ==> {
            let after = s.step(EventView::Received(message), entropy, now);
            after.0.phase is AwaitingAck ==> after.1 == (ActionView::Challenge {
                nonce: after.0.phase->AwaitingAck_challenge.nonce,
                expiry: rfc3339_text(after.0.phase->AwaitingAck_challenge.expiry),
            }) && representable(after.0.phase->AwaitingAck_challenge.expiry)
        },
        s.phase is AwaitingAck ==> s.step(EventView::Received(message), entropy, now) == (
            s.moved_to(
                PhaseView::AwaitingPresentation { challenge: s.phase->AwaitingAck_challenge },
            ),
            ActionView::Receive,
        ),
        s.phase is AwaitingPresentation ==> s.step(EventView::Received(message), entropy, now).1
            == ActionView::CheckPresentation(message),
        s.phase is AwaitingCommand && command_of(message) == Command::IssueCredential ==> s.step(
            EventView::Received(message),
            entropy,
            now,
        ) == (s.resumed_in(PhaseView::AwaitingSubject), ActionView::Receive),
{
}

/// A closed session stays closed and keeps answering `Close`.
pub proof fn lemma_closed_is_final(s: SessionView, event: EventView, entropy: Option<u64>, now: int)
    requires
        s.phase is Closed,
    ensures
        s.step(event, entropy, now) == (s, ActionView::Close),
{
}

/// The session is shut down exactly when it closes: every step that ends in
/// `Closed` orders `Close`, and no other step does. A refusal carries no
/// reason to the peer.
pub proof fn lemma_close_iff_closed(s: SessionView, event: EventView, entropy: Option<u64>, now: int)
    ensures
        s.step(event, entropy, now).0.phase is Closed <==> s.step(event, entropy, now).1
            is Close,
{
}

/// While the session goes on, the run of unrecognised commands stays below
/// the limit.
pub proof fn lemma_strikes_bounded(s: SessionView, event: EventView, entropy: Option<u64>, now: int)
    requires
        s.strikes < s.max_strikes,
    ensures
        s.step(event, entropy, now).0.strikes < s.max_strikes,
{
}

/// The identity of the verifier is sent only after a presentation was
/// accepted against the challenge that this session issued.
pub proof fn lemma_identity_only_after_acceptance(
    s: SessionView,
    event: EventView,
    entropy: Option<u64>,
    now: int,
)
    requires
        s.phase is AwaitingReport,
        !(s.step(event, entropy, now).0.phase is Closed),
    ensures
        event matches EventView::Checked { presentation: Some(decoded), holder_document }
            && presentation_result(
            decoded.presented_as(s.phase->AwaitingReport_text),
            s.phase->AwaitingReport_challenge,
            presented_credential_signer(decoded, s.document),
            presentation_signer(
                decoded.presented_as(s.phase->AwaitingReport_text),
                s.phase->AwaitingReport_challenge.nonce,
                holder_document,
            ),
            now,
        ) is Ok,
        s.step(event, entropy, now).1 == ActionView::Reply(s.issuer),
{
}

} // verus!
