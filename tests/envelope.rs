use base64::engine::general_purpose::URL_SAFE;
use base64::Engine;

use fidoac::{envelope_from_fields, parse_fidoac_json, ZkError};

fn envelope(proof: &str, hash: &str, age: &str, year: &str) -> String {
    format!(
        "{{\"PROOF_ID\": {}, \"HASH_ID\": {}, \"AGEGT_ID\": {}, \"CURYEAR_ID\": {}}}",
        proof, hash, age, year
    )
}

fn quoted(s: &str) -> String {
    format!("\"{}\"", s)
}

#[test]
fn envelope_fields_are_decoded() {
    let proof = vec![0xfbu8, 0xff, 0x00, 0x10];
    let digest: Vec<u8> = (0u8..32).collect();
    let text = envelope(
        &quoted(&URL_SAFE.encode(&proof)),
        &quoted(&URL_SAFE.encode(&digest)),
        "18",
        "20",
    );
    assert_eq!(parse_fidoac_json(&text), Ok((proof, digest, 18, 20)));
}

#[test]
fn envelope_errors() {
    let p = quoted(&URL_SAFE.encode([1u8, 2, 3]));
    let h = quoted(&URL_SAFE.encode([4u8; 32]));
    assert_eq!(parse_fidoac_json("not json"), Err(ZkError::JsonEnvelopeParseError));
    assert_eq!(
        parse_fidoac_json(&format!("{{\"PROOF_ID\": {}, \"HASH_ID\": {}, \"AGEGT_ID\": 18}}", p, h)),
        Err(ZkError::JsonEnvelopeParseError)
    );
    assert_eq!(parse_fidoac_json(&envelope("\"@@@\"", &h, "18", "20")), Err(ZkError::JsonEnvelopeParseError));
    assert_eq!(parse_fidoac_json(&envelope(&p, &h, "\"18\"", "20")), Err(ZkError::JsonEnvelopeParseError));
    assert_eq!(parse_fidoac_json(&envelope(&p, &h, "-1", "20")), Err(ZkError::JsonEnvelopeParseError));
    assert_eq!(parse_fidoac_json(&envelope(&p, &h, "256", "20")), Err(ZkError::InvalidRange));
    assert_eq!(parse_fidoac_json(&envelope(&p, &h, "18", "100")), Err(ZkError::InvalidRange));
}

#[test]
fn envelope_from_fields_decodes_base64url() {
    let r = envelope_from_fields(Some("AQID".to_string()), Some("_-8=".to_string()), Some(255), Some(99));
    assert_eq!(r, Ok((vec![1, 2, 3], vec![0xff, 0xef], 255, 99)));
    assert_eq!(
        envelope_from_fields(None, Some("AQID".to_string()), Some(1), Some(1)),
        Err(ZkError::JsonEnvelopeParseError)
    );
    assert_eq!(
        envelope_from_fields(Some("A".to_string()), Some("AQID".to_string()), Some(1), Some(1)),
        Err(ZkError::JsonEnvelopeParseError)
    );
}
