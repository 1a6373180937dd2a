use fl_trust::did::{bare_identifier, did_of_genesis, is_bare, is_genesis_of, parse_did};

const HOLDER: &[u8] = b"did:iota:0x1111111111111111111111111111111111111111111111111111111111111111";

#[test]
fn identifier_is_rendered_in_canonical_form() {
    assert_eq!(parse_did(HOLDER), Some(HOLDER.to_vec()));
    let shouted = b"DID:IOTA:0x1111111111111111111111111111111111111111111111111111111111111111";
    assert_eq!(parse_did(shouted), Some(HOLDER.to_vec()));
    let default_network = b"did:iota:iota:0x1111111111111111111111111111111111111111111111111111111111111111";
    assert_eq!(parse_did(default_network), Some(HOLDER.to_vec()));
    let testnet = b"did:iota:rms:0x1111111111111111111111111111111111111111111111111111111111111111";
    assert_eq!(parse_did(testnet), Some(testnet.to_vec()));
}

#[test]
fn what_is_no_identifier_of_the_method_is_refused() {
    assert_eq!(parse_did(b""), None);
    assert_eq!(parse_did(b"holder"), None);
    assert_eq!(parse_did(b"did:example:123"), None);
    assert_eq!(parse_did(b"did:iota:0x1234"), None);
    assert_eq!(parse_did(&[0xff, 0xfe]), None);
}

#[test]
fn identifier_with_path_query_or_fragment_is_refused() {
    for tail in ["/path", "?query", "#key", "/a?b#c"] {
        let mut text = HOLDER.to_vec();
        text.extend_from_slice(tail.as_bytes());
        assert_eq!(parse_did(&text), None, "on {tail}");
    }
}

#[test]
fn identifier_with_blanks_around_it_is_refused() {
    for (before, after) in [("", "\n"), ("", " "), ("", "\r\n"), ("", "\0"), ("", "\t"), (" ", ""), ("\n", "\n")] {
        let mut text = before.as_bytes().to_vec();
        text.extend_from_slice(HOLDER);
        text.extend_from_slice(after.as_bytes());
        assert_eq!(parse_did(&text), None, "on {:?}", (before, after));
    }
}

#[test]
fn bare_texts_hold_no_separator() {
    assert!(is_bare(b""));
    assert!(is_bare(HOLDER));
    assert!(is_bare(b"!~"));
    assert!(!is_bare(b"a/b"));
    assert!(!is_bare(b"a?"));
    assert!(!is_bare(b"#a"));
    assert!(!is_bare(b"a b"));
    assert!(!is_bare(b"a\n"));
    assert!(!is_bare(b"\0a"));
    assert!(!is_bare(&[b'a', 127]));
    assert!(!is_bare(&[b'a', 0x80]));
    assert_eq!(bare_identifier(Some(b"did:x:1\n".to_vec())), None);
    assert_eq!(bare_identifier(None), None);
    assert_eq!(bare_identifier(Some(b"did:x:1".to_vec())), Some(b"did:x:1".to_vec()));
    assert_eq!(bare_identifier(Some(b"did:x:1#k".to_vec())), None);
}

#[test]
fn identifier_is_named_after_the_digest_of_its_first_document() {
    let did = did_of_genesis(b"dev", b"abc");
    assert_eq!(
        did,
        b"did:iota:dev:0xba7816bf8f01cfea414140de5dae2223b00361a396177a9cb410ff61f20015ad".to_vec()
    );
    assert_eq!(parse_did(&did), Some(did.clone()));
    assert!(is_genesis_of(&did, b"dev", b"abc"));
    assert!(!is_genesis_of(&did, b"dev", b"abd"));
    assert!(!is_genesis_of(&did, b"rms", b"abc"));
    assert!(!is_genesis_of(HOLDER, b"dev", b"abc"));
}
