//! Time-bound challenges for the presentation handshake.
use vstd::prelude::*;
use crate::bytes::{decimal, u64_to_decimal};
use crate::clock::{clock_unix, representable, MAX_UNIX, MIN_UNIX};
use rand_chacha::rand_core::{OsRng, RngCore, SeedableRng};

verus! {

/// How long a challenge stays valid unless the caller chooses otherwise:
/// ten minutes.
pub const CHALLENGE_WINDOW_SECS: u32 = 600;

/// A one-time value that a presentation must bind, and the instant after
/// which it is no longer accepted.
#[derive(Clone, Debug, PartialEq, Eq)]
pub struct Challenge {
    /// The unpredictable part, as decimal digits.
    pub nonce: Vec<u8>,
    /// Unix seconds; the challenge is good up to and including this instant.
    pub expiry: i64,
}

/// Mathematical content of a [`Challenge`].
pub struct ChallengeView {
    pub nonce: Seq<u8>,
    pub expiry: int,
}

impl View for Challenge {
    type V = ChallengeView;

    open spec fn view(&self) -> ChallengeView {
        ChallengeView { nonce: self.nonce@, expiry: self.expiry as int }
    }
}

/// The view of an optional challenge.
pub open spec fn opt_challenge_view(c: Option<Challenge>) -> Option<ChallengeView> {
    match c {
        Some(c) => Some(c@),
        None => None,
    }
}

/// The challenge that a drawn number and a clock reading give, where the
/// expiry `now + window` still has a calendar text.
pub open spec fn challenge_at(nonce: u64, now: int, window: int) -> Option<ChallengeView> {
    if representable(now + window) {
        Some(ChallengeView { nonce: decimal(nonce as nat), expiry: now + window })
    } else {
        None
    }
}

/// Draws 64 bits from a ChaCha8 generator that `SeedableRng::from_rng` seeds
/// from the operating system's entropy source (`OsRng`), then `next_u64`.
/// `None` where the system gives no entropy. Nothing is claimed of the value.
#[verifier::external_body]
pub(crate) fn secure_random_u64() -> (r: Option<u64>) {
    match rand_chacha::ChaCha8Rng::from_rng(OsRng) {
        Ok(mut gen) => Some(gen.next_u64()),
        Err(_) => None,
    }
}

/// The challenge made of a drawn number and a clock reading.
///
/// It exists exactly when its expiry, `now + window`, still has a calendar
/// text.
pub fn challenge_from(nonce: u64, now: i64, window: u32) -> (r: Option<Challenge>)
    ensures
        opt_challenge_view(r) == challenge_at(nonce, now as int, window as int),
{
    if now > MAX_UNIX {
        return None;
    }
    let expiry: i64 = now + (window as i64);
    if expiry < MIN_UNIX || expiry > MAX_UNIX {
        return None;
    }
    Some(Challenge { nonce: u64_to_decimal(nonce), expiry })
}

/// A fresh challenge that lapses `window` seconds from now.
///
/// The nonce comes from a cryptographically secure generator and the clock is
/// read once, so the contract can only say what every outcome has: the
/// challenge is the one that [`challenge_at`] gives for some 64-bit number
/// and some clock reading. `None` where the system gave no entropy or the
/// expiry has no calendar text.
pub fn create_challenge_with(window: u32) -> (r: Option<Challenge>)
    ensures
        r is Some ==> exists|n: u64, now: int|
            opt_challenge_view(r) == #[trigger] challenge_at(n, now, window as int),
{
    match secure_random_u64() {
        Some(n) => {
            let now = clock_unix();
            challenge_from(n, now, window)
        },
        None => None,
    }
}

/// A fresh challenge with the default window of ten minutes.
pub fn create_challenge() -> (r: Option<Challenge>)
    ensures
        r is Some ==> exists|n: u64, now: int|
            opt_challenge_view(r) == #[trigger] challenge_at(
                n,
                now,
                CHALLENGE_WINDOW_SECS as int,
            ),
{
    create_challenge_with(CHALLENGE_WINDOW_SECS)
}

} // verus!
