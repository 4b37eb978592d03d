use vstd::prelude::*;
use base64::engine::general_purpose::URL_SAFE;
use base64::{DecodeError, Engine};
use serde_json::Value;
use crate::error::ZkError;
use crate::prover::{MAX_AGE_THRESHOLD, MAX_REFERENCE_YEAR};

verus! {

/// Key of the base64url-encoded proof.
pub const PROOF_ID: &'static str = "PROOF_ID";

/// Key of the base64url-encoded digest.
pub const HASH_ID: &'static str = "HASH_ID";

/// Key of the age threshold.
pub const AGEGT_ID: &'static str = "AGEGT_ID";

/// Key of the reference year.
pub const CURYEAR_ID: &'static str = "CURYEAR_ID";

#[verifier::external_type_specification]
#[verifier::external_body]
pub struct ExDecodeError(DecodeError);

/// The bytes that padded, URL-safe base64 text stands for, if it is valid.
pub uninterp spec fn base64url_decode(text: Seq<char>) -> Option<Seq<u8>>;

/// Relies on `Engine::decode` of base64's `URL_SAFE` engine: it fails or
/// yields bytes according to the text alone.
#[verifier::external_body]
fn decode_base64url(text: &str) -> (r: Result<Vec<u8>, DecodeError>)
    ensures
        r.is_ok() == base64url_decode(text@).is_some(),
        r.is_ok() ==> base64url_decode(text@) == Some(r.unwrap()@),
{
    URL_SAFE.decode(text)
}

/// The text of the string member `key` of the JSON document `doc`; `None`
/// where `doc` is not JSON, has no such member, or the member is not a
/// string.
pub uninterp spec fn json_text_field(doc: Seq<char>, key: Seq<char>) -> Option<Seq<char>>;

/// The value of the member `key` of the JSON document `doc` where it is an
/// integer that fits a `u64`; `None` where `doc` is not JSON, has no such
/// member, or the member is anything else.
pub uninterp spec fn json_u64_field(doc: Seq<char>, key: Seq<char>) -> Option<u64>;

/// Relies on serde_json (`from_str` to a `Value`, `Value::get`,
/// `Value::as_str`): the string member of a document, read from its text
/// alone.
#[verifier::external_body]
fn read_text_field(doc: &str, key: &str) -> (r: Option<String>)
    ensures
        match r {
            Some(t) => json_text_field(doc@, key@) == Some(t@),
            None => json_text_field(doc@, key@) is None,
        },
{
    serde_json::from_str::<Value>(doc).ok().and_then(
        |v| v.get(key).and_then(|f| f.as_str()).map(|t| t.to_string()),
    )
}

/// Relies on serde_json (`from_str` to a `Value`, `Value::get`,
/// `Value::as_u64`): the `u64` member of a document, read from its text
/// alone.
#[verifier::external_body]
fn read_u64_field(doc: &str, key: &str) -> (r: Option<u64>)
    ensures
        r == json_u64_field(doc@, key@),
{
    serde_json::from_str::<Value>(doc).ok().and_then(|v| v.get(key).and_then(|f| f.as_u64()))
}

/// What an envelope's four fields decode to: the proof bytes, the digest
/// bytes, the threshold and the year.
pub open spec fn envelope_of(
    proof_text: Option<Seq<char>>,
    hash_text: Option<Seq<char>>,
    age_gt: Option<u64>,
    cur_year: Option<u64>,
) -> Result<(Seq<u8>, Seq<u8>, u8, u8), ZkError> {
    if proof_text is None || hash_text is None || age_gt is None || cur_year is None {
        Err(ZkError::JsonEnvelopeParseError)
    } else if base64url_decode(proof_text.unwrap()) is None || base64url_decode(
        hash_text.unwrap(),
    ) is None {
        Err(ZkError::JsonEnvelopeParseError)
    } else if age_gt.unwrap() > MAX_AGE_THRESHOLD as u64 || cur_year.unwrap()
        > MAX_REFERENCE_YEAR as u64 {
        Err(ZkError::InvalidRange)
    } else {
        Ok(
            (
                base64url_decode(proof_text.unwrap()).unwrap(),
                base64url_decode(hash_text.unwrap()).unwrap(),
                age_gt.unwrap() as u8,
                cur_year.unwrap() as u8,
            ),
        )
    }
}

/// The view of an optional string.
pub open spec fn text_view(s: Option<String>) -> Option<Seq<char>> {
    match s {
        Some(t) => Some(t@),
        None => None,
    }
}

/// Decodes the envelope's fields, as read from the JSON document: each
/// text from base64url, each number checked against its domain.
pub fn envelope_from_fields(
    proof_text: Option<String>,
    hash_text: Option<String>,
    age_gt: Option<u64>,
    cur_year: Option<u64>,
) -> (r: Result<(Vec<u8>, Vec<u8>, u8, u8), ZkError>)
    ensures
        match r {
            Ok((p, h, a, y)) => envelope_of(text_view(proof_text), text_view(hash_text), age_gt, cur_year)
                == Ok::<(Seq<u8>, Seq<u8>, u8, u8), ZkError>((p@, h@, a, y)),
            Err(e) => envelope_of(text_view(proof_text), text_view(hash_text), age_gt, cur_year)
                == Err::<(Seq<u8>, Seq<u8>, u8, u8), ZkError>(e),
        },
{
    let (proof_text, hash_text, age_gt, cur_year) = match (proof_text, hash_text, age_gt, cur_year) {
        (Some(p), Some(h), Some(a), Some(y)) => (p, h, a, y),
        _ => {
            return Err(ZkError::JsonEnvelopeParseError);
        },
    };
    let proof_bytes = match decode_base64url(proof_text.as_str()) {
        Ok(b) => b,
        Err(_) => {
            return Err(ZkError::JsonEnvelopeParseError);
        },
    };
    let digest_bytes = match decode_base64url(hash_text.as_str()) {
        Ok(b) => b,
        Err(_) => {
            return Err(ZkError::JsonEnvelopeParseError);
        },
    };
    if age_gt > MAX_AGE_THRESHOLD as u64 || cur_year > MAX_REFERENCE_YEAR as u64 {
        return Err(ZkError::InvalidRange);
    }
    Ok((proof_bytes, digest_bytes, age_gt as u8, cur_year as u8))
}

/// Reads a verification envelope: a JSON object with the base64url proof
/// under `PROOF_ID`, the base64url digest under `HASH_ID`, and the threshold
/// and year as integers under `AGEGT_ID` and `CURYEAR_ID`.
pub fn parse_fidoac_json(json_string: &str) -> (r: Result<(Vec<u8>, Vec<u8>, u8, u8), ZkError>)
    ensures
        match r {
            Ok((p, h, a, y)) => envelope_of(
                json_text_field(json_string@, PROOF_ID@),
                json_text_field(json_string@, HASH_ID@),
                json_u64_field(json_string@, AGEGT_ID@),
                json_u64_field(json_string@, CURYEAR_ID@),
            ) == Ok::<(Seq<u8>, Seq<u8>, u8, u8), ZkError>((p@, h@, a, y)),
            Err(e) => envelope_of(
                json_text_field(json_string@, PROOF_ID@),
                json_text_field(json_string@, HASH_ID@),
                json_u64_field(json_string@, AGEGT_ID@),
                json_u64_field(json_string@, CURYEAR_ID@),
            ) == Err::<(Seq<u8>, Seq<u8>, u8, u8), ZkError>(e),
        },
{
    let proof_text = read_text_field(json_string, PROOF_ID);
    let hash_text = read_text_field(json_string, HASH_ID);
    let age_gt = read_u64_field(json_string, AGEGT_ID);
    let cur_year = read_u64_field(json_string, CURYEAR_ID);
    envelope_from_fields(proof_text, hash_text, age_gt, cur_year)
}

} // verus!
