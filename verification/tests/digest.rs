use base64::Engine;
use satispay::digest::compute;
use sha2::Digest;

fn reference(body: &[u8]) -> String {
    let hash = sha2::Sha256::digest(body);
    format!(
        "SHA256={}",
        base64::engine::general_purpose::STANDARD_NO_PAD.encode(hash)
    )
}

#[test]
fn digest_of_empty_body_is_hash_of_nothing() {
    assert_eq!(
        compute(b""),
        "SHA256=47DEQpj8HBSa+/TImW+5JCeuQeRkm5NMpJWZG3hSuFU"
    );
}

#[test]
fn digest_of_json_body() {
    assert_eq!(
        compute(b"{\"action\":\"ACCEPT\"}"),
        "SHA256=ApxXPThwY0BF7nd6MO1Xe0Mn5fhINYacX8hX6N33OXY"
    );
}

#[test]
fn digest_has_no_padding() {
    let value = compute(b"");
    assert!(!value.contains('='.to_string().repeat(2).as_str()));
    assert!(!value.ends_with('='));
    assert_eq!(value.len(), "SHA256=".len() + 43);
}

#[test]
fn digest_is_deterministic() {
    let body = b"the same bytes twice";
    assert_eq!(compute(body), compute(body));
}

#[test]
fn digest_differs_from_its_input() {
    let body = b"SHA256=";
    assert_ne!(compute(body).as_bytes(), &body[..]);
}

#[test]
fn digest_matches_hash_then_encode() {
    let bodies: Vec<Vec<u8>> = vec![
        vec![],
        vec![0],
        vec![0xff, 0xfe],
        b"abc".to_vec(),
        (0..=255u8).collect(),
        vec![7u8; 1000],
    ];
    for body in bodies {
        assert_eq!(compute(&body), reference(&body));
    }
}

#[test]
fn digest_has_fifty_characters() {
    for body in [&b""[..], b"a", b"{\"flow\":\"MATCH_CODE\"}"] {
        assert_eq!(compute(body).chars().count(), 50);
    }
}
