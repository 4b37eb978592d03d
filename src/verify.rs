use vstd::prelude::*;
use ark_bls12_381::{Bls12_381, Fr};
use ark_groth16::{Groth16, PreparedVerifyingKey};
use ark_relations::r1cs::SynthesisError;
use ark_snark::SNARK;
use crate::circuit::DIGEST_LEN;
use crate::error::ZkError;
use crate::inputs::public_inputs;
use crate::inputs::public_input_vector;
use crate::keys::{
    parse_proof, parse_verf_key, proof_from_bytes, verifying_key_from_bytes, verifying_key_is_valid,
    verifying_key_valid, SnarkProof, SnarkVerifyingKey,
};
use crate::prover::MAX_REFERENCE_YEAR;

verus! {

#[verifier::external_type_specification]
#[verifier::external_body]
pub struct ExSynthesisError(SynthesisError);

/// A verifying key with its pairing precomputations done, for repeated
/// verification.
#[verifier::external_body]
pub struct PreparedKey {
    pub key: PreparedVerifyingKey<Bls12_381>,
}

/// The prepared form of a verifying key.
pub uninterp spec fn prepared_of(vk: SnarkVerifyingKey) -> PreparedKey;

/// The Groth16 verdict on a proof for the public inputs under a prepared
/// key; `None` where the algorithm reports an error (an input count that
/// does not match the key, or a degenerate pairing).
pub uninterp spec fn groth16_verdict(pvk: PreparedKey, inputs: Seq<u64>, proof: SnarkProof) -> Option<bool>;

/// Relies on `SNARK::process_vk` of ark-groth16, which always returns `Ok`
/// with the prepared key. On a key with a point off its curve or outside its
/// subgroup the pairing inside may panic, so the key must be valid.
#[verifier::external_body]
fn prepare_key(vk: &SnarkVerifyingKey) -> (r: Result<PreparedKey, SynthesisError>)
    requires
        verifying_key_valid(*vk),
    ensures
        r.is_ok(),
        r.unwrap() == prepared_of(*vk),
{
    Groth16::<Bls12_381>::process_vk(&vk.key).map(|key| PreparedKey { key })
}

/// Relies on `SNARK::verify_with_processed_vk` of ark-groth16, each input
/// handed over as the field element of the same value: its answer depends
/// on its arguments alone.
#[verifier::external_body]
fn groth16_verify(pvk: &PreparedKey, inputs: &Vec<u64>, proof: &SnarkProof) -> (r: Result<
    bool,
    SynthesisError,
>)
    ensures
        match r {
            Ok(v) => groth16_verdict(*pvk, inputs@, *proof) == Some(v),
            Err(_) => groth16_verdict(*pvk, inputs@, *proof) is None,
        },
{
    let x: Vec<Fr> = inputs.iter().map(|v| Fr::from(*v)).collect();
    Groth16::<Bls12_381>::verify_with_processed_vk(&pvk.key, &x, &proof.proof)
}

/// The error, if any, that a statement is rejected with before verification.
pub open spec fn statement_error(digest_len: nat, cur_year: u8) -> Option<ZkError> {
    if digest_len != DIGEST_LEN {
        Some(ZkError::InvalidInputLength)
    } else if cur_year > MAX_REFERENCE_YEAR {
        Some(ZkError::InvalidRange)
    } else {
        None
    }
}

/// What verifying `proof` under `vk` against the statement (digest,
/// threshold, year) gives: a statement error, a malformed-key error, the
/// Groth16 verdict on the public-input vector, or an internal failure where
/// the algorithm reports one.
pub open spec fn verify_outcome(
    vk: SnarkVerifyingKey,
    proof: SnarkProof,
    digest: Seq<u8>,
    age_gt: u8,
    cur_year: u8,
) -> Result<bool, ZkError> {
    if statement_error(digest.len(), cur_year) is Some {
        Err(statement_error(digest.len(), cur_year).unwrap())
    } else if !verifying_key_valid(vk) {
        Err(ZkError::KeyDeserializationError)
    } else {
        match groth16_verdict(prepared_of(vk), public_input_vector(digest, age_gt, cur_year), proof) {
            Some(v) => Ok(v),
            None => Err(ZkError::CryptographicFailure),
        }
    }
}

/// Checks `proof` against the statement (digest, threshold, year): rebuilds
/// the public-input vector and runs Groth16 verification against the
/// prepared key. `Ok(false)` is a legitimate negative answer. The result is
/// a function of the arguments alone.
pub fn fidoac_verify(
    vk: &SnarkVerifyingKey,
    proof: &SnarkProof,
    expected_hash_vec: &Vec<u8>,
    age_gt: u8,
    cur_year: u8,
) -> (r: Result<bool, ZkError>)
    ensures
        r == verify_outcome(*vk, *proof, expected_hash_vec@, age_gt, cur_year),
{
    if expected_hash_vec.len() != DIGEST_LEN {
        return Err(ZkError::InvalidInputLength);
    }
    if cur_year as i32 > MAX_REFERENCE_YEAR {
        return Err(ZkError::InvalidRange);
    }
    if !verifying_key_is_valid(vk) {
        return Err(ZkError::KeyDeserializationError);
    }
    let pvk = match prepare_key(vk) {
        Ok(pvk) => pvk,
        Err(_) => {
            return Err(ZkError::CryptographicFailure);
        },
    };
    let public_input = public_inputs(expected_hash_vec, age_gt, cur_year);
    match groth16_verify(&pvk, &public_input, proof) {
        Ok(valid) => Ok(valid),
        Err(_) => Err(ZkError::CryptographicFailure),
    }
}

/// What verifying serialized material gives: the key is read first, then
/// the proof, then the proof is checked against the statement.
pub open spec fn verify_bytes_outcome(
    vk_bytes: Seq<u8>,
    proof_bytes: Seq<u8>,
    digest: Seq<u8>,
    age_gt: u8,
    cur_year: u8,
) -> Result<bool, ZkError> {
    match verifying_key_from_bytes(vk_bytes) {
        None => Err(ZkError::KeyDeserializationError),
        Some(vk) => match proof_from_bytes(proof_bytes) {
            None => Err(ZkError::ProofDeserializationError),
            Some(proof) => verify_outcome(vk, proof, digest, age_gt, cur_year),
        },
    }
}

/// Verifies serialized material: reads the verifying key, then the proof,
/// then checks the proof against the statement.
pub fn verify_proof(
    vk_bytes: Vec<u8>,
    proof_bytes: Vec<u8>,
    randomized_digest_hash: Vec<u8>,
    age_gt: u8,
    cur_year: u8,
) -> (r: Result<bool, ZkError>)
    ensures
        r == verify_bytes_outcome(vk_bytes@, proof_bytes@, randomized_digest_hash@, age_gt, cur_year),
{
    let vk = match parse_verf_key(vk_bytes) {
        Ok(vk) => vk,
        Err(e) => {
            return Err(e);
        },
    };
    let proof = match parse_proof(proof_bytes) {
        Ok(p) => p,
        Err(e) => {
            return Err(e);
        },
    };
    fidoac_verify(&vk, &proof, &randomized_digest_hash, age_gt, cur_year)
}

} // verus!
