//! Zero-knowledge age attestation over an electronic-passport data group.
//!
//! The verified part of the crate fixes the byte layout that the proof
//! circuit reads, the public-input vector shared by prover and verifier,
//! the digest commitment, the codec for keys and proofs, the verification
//! step and the verification envelope.

mod age;
mod bits;
mod circuit;
mod digest;
mod envelope;
mod error;
mod inputs;
mod keys;
mod prover;
mod verify;

pub use age::{
    age_from, age_requirement_met, birth_year, birth_year_of, derive_age, digit_value,
    lemma_age_wraps_century, meets_age_requirement, ASCII_DIGIT_OFFSET, BIRTH_YEAR_ONES_OFFSET,
    BIRTH_YEAR_TENS_OFFSET, CENTURY, DG1_TD3_LEN,
};
pub use bits::{
    be_bits, big_endian_get_bit, bit_of, bits_of_bytes, digest_bits, le_bits,
    lemma_bits_determine_byte, little_endian_get_bit,
};
pub use circuit::{get_mod_name, zeros, SHA2PreimageCircuit, DIGEST_LEN};
pub use digest::{compute_randomized_digest, randomized_digest, sha256_digest, sha256_of};
pub use envelope::{
    base64url_decode, envelope_from_fields, envelope_of, json_text_field, json_u64_field,
    parse_fidoac_json, text_view, AGEGT_ID, CURYEAR_ID, HASH_ID, PROOF_ID,
};
pub use error::ZkError;
pub use inputs::{lemma_public_inputs_injective, public_input_vector, public_inputs};
pub use keys::{
    parse_keys, parse_proof, parse_verf_key, proof_encoding, proof_from_bytes,
    proving_key_encoding, proving_key_from_bytes, serialize_proof, serialize_proving_key,
    serialize_verifying_key, verifying_key_encoding, verifying_key_from_bytes,
    verifying_key_is_valid, verifying_key_valid, SnarkProof, SnarkProvingKey, SnarkVerifyingKey,
};
pub use prover::{
    conclude_proof, prepare_circuit, prove_input_error, MAX_AGE_THRESHOLD, MAX_REFERENCE_YEAR,
};
pub use verify::{
    fidoac_verify, groth16_verdict, prepared_of, statement_error, verify_bytes_outcome,
    verify_outcome, verify_proof, PreparedKey,
};
