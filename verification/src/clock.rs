//! Instants as Unix seconds, and their RFC 3339 text.
use vstd::prelude::*;

verus! {

/// 0000-01-01T00:00:00Z, the earliest instant that has an RFC 3339 text.
pub const MIN_UNIX: i64 = -62167219200;

/// 9999-12-31T23:59:59Z, the latest instant that has an RFC 3339 text.
pub const MAX_UNIX: i64 = 253402300799;

/// Whether `seconds` lies in the years 0000 to 9999.
pub open spec fn representable(seconds: int) -> bool {
    MIN_UNIX <= seconds <= MAX_UNIX
}

/// The RFC 3339 text that `identity_iota` gives the instant `seconds`.
pub uninterp spec fn rfc3339_text(seconds: int) -> Seq<u8>;

/// Reads the system clock through `Timestamp::now_utc` and `to_unix`.
/// Nothing is claimed of the value: it is whatever the clock says.
#[verifier::external_body]
pub(crate) fn clock_unix() -> (now: i64) {
    identity_iota::core::Timestamp::now_utc().to_unix()
}

/// `Timestamp::from_unix` followed by `Timestamp::to_rfc3339`.
/// `from_unix` documents that it fails exactly outside
/// [`MIN_UNIX`, `MAX_UNIX`]; the text of an accepted instant is named, not
/// spelled out.
#[verifier::external_body]
pub(crate) fn timestamp_text(seconds: i64) -> (r: Option<Vec<u8>>)
    ensures
        r is Some <==> representable(seconds as int),
        r matches Some(text) ==> text@ == rfc3339_text(seconds as int),
{
    match identity_iota::core::Timestamp::from_unix(seconds) {
        Ok(t) => Some(t.to_rfc3339().into_bytes()),
        Err(_) => None,
    }
}

} // verus!
