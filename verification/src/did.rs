//! Decentralized identifiers as the ledger's DID method writes them.
use vstd::prelude::*;
use crate::bytes::{ascii, bytes_eq, literal, opt_view};
use crate::digest::{commitment, content_digest};

verus! {

/// The text in which `IotaDID::parse` renders `text` back, where it accepts
/// `text`; `None` where it does not.
pub uninterp spec fn iota_did_canonical(text: Seq<u8>) -> Option<Seq<u8>>;

/// `IotaDID::parse` on the UTF-8 text in `text`, rendered back with
/// `to_string`. The result is a function of the bytes alone: bytes that are
/// not UTF-8, or that the method's grammar refuses, give `None`.
#[verifier::external_body]
pub(crate) fn iota_did_parse(text: &[u8]) -> (r: Option<Vec<u8>>)
    ensures
        opt_view(r) == iota_did_canonical(text@),
{
    match core::str::from_utf8(text) {
        Ok(s) => identity_iota::iota::IotaDID::parse(s).ok().map(|d| d.to_string().into_bytes()),
        Err(_) => None,
    }
}

/// A byte that may stand in a bare identifier: a visible ASCII character
/// other than `/`, `?` and `#`. Blanks, control characters and bytes beyond
/// ASCII may not.
pub open spec fn plain(byte: u8) -> bool {
    33 <= byte <= 126 && byte != 47 && byte != 63 && byte != 35
}

/// A text without path, query or fragment and without blanks or control
/// characters, within or around it.
pub open spec fn bare(text: Seq<u8>) -> bool {
    forall|i: int| 0 <= i < text.len() ==> plain(#[trigger] text[i])
}

/// The canonical text of the identifier that `text` denotes: what the DID
/// method's parser renders, where that is a bare identifier; `None` where
/// the parser refuses `text`, reads a path, a query or a fragment in it, or
/// renders blanks or control characters that stood around it.
pub open spec fn canonical_did(text: Seq<u8>) -> Option<Seq<u8>> {
    match iota_did_canonical(text) {
        Some(canonical) => if bare(canonical) {
            Some(canonical)
        } else {
            None
        },
        None => None,
    }
}

/// Whether `text` is made of visible ASCII characters other than `/`, `?`
/// and `#`.
pub fn is_bare(text: &[u8]) -> (r: bool)
    ensures
        r == bare(text@),
{
    let mut i: usize = 0;
    while i < text.len()
        invariant
            i <= text.len(),
            forall|k: int| 0 <= k < i ==> plain(#[trigger] text@[k]),
        decreases text.len() - i,
    {
        let b = text[i];
        if b < 33 || b > 126 || b == 47 || b == 63 || b == 35 {
            assert(!plain(text@[i as int]));
            return false;
        }
        i = i + 1;
    }
    true
}

/// Keeps what the parser rendered only if it is a bare identifier.
pub fn bare_identifier(rendered: Option<Vec<u8>>) -> (r: Option<Vec<u8>>)
    ensures
        opt_view(r) == match opt_view(rendered) {
            Some(canonical) => if bare(canonical) {
                Some(canonical)
            } else {
                None
            },
            None => None,
        },
{
    match rendered {
        Some(canonical) => if is_bare(canonical.as_slice()) {
            Some(canonical)
        } else {
            None
        },
        None => None,
    }
}

/// Reads an identifier of the DID method and returns its canonical text.
pub fn parse_did(text: &[u8]) -> (r: Option<Vec<u8>>)
    ensures
        opt_view(r) == canonical_did(text@),
{
    bare_identifier(iota_did_parse(text))
}

/// The identifier that vouches for a document by its first form: the DID
/// method, the network, and as tag the SHA-256 digest of `genesis`, the
/// bytes in which the document was first anchored. Whoever resolves such an
/// identifier can tell the document that belongs to it from any other that
/// was anchored under its name.
pub open spec fn genesis_did(network: Seq<u8>, genesis: Seq<u8>) -> Seq<u8> {
    ascii("did:iota:"@) + network + ascii(":0x"@) + commitment(genesis)
}

/// Builds the identifier that vouches for the document first anchored as
/// `genesis` on `network`.
pub fn did_of_genesis(network: &[u8], genesis: &[u8]) -> (r: Vec<u8>)
    ensures
        r@ == genesis_did(network@, genesis@),
{
    proof {
        reveal_strlit("did:iota:");
        reveal_strlit(":0x");
    }
    let mut r = literal("did:iota:");
    r.extend_from_slice(network);
    let mark = literal(":0x");
    r.extend_from_slice(mark.as_slice());
    let tag = content_digest(genesis);
    r.extend_from_slice(tag.as_slice());
    r
}

/// Whether `did` vouches for the document first anchored as `genesis` on
/// `network`.
pub fn is_genesis_of(did: &[u8], network: &[u8], genesis: &[u8]) -> (r: bool)
    ensures
        r == (did@ == genesis_did(network@, genesis@)),
{
    let expected = did_of_genesis(network, genesis);
    bytes_eq(did, expected.as_slice())
}

} // verus!
