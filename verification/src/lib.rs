//! Trust protocol for a federated-learning cohort: credential issuance,
//! challenge-response presentation checks, the authorization session, the
//! ledger polling rule and the integrity chain over retrieved contributions.
//!
//! Text travels through this crate as UTF-8 bytes (`Vec<u8>` / `&[u8]`), and
//! instants as Unix seconds (`i64`). Signatures are compact JWS tokens; a
//! signature over data that the token leaves out covers the data unencoded.
pub mod bytes;
pub mod chain;
pub mod challenge;
pub mod clock;
pub mod credential;
pub mod did;
pub mod digest;
pub mod error;
pub mod frame;
pub mod ledger;
pub mod presentation;
pub mod publish;
pub mod round;
pub mod session;
pub mod signable;
pub mod signature;
