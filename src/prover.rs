use vstd::prelude::*;
use crate::age::DG1_TD3_LEN;
use crate::circuit::{SHA2PreimageCircuit, DIGEST_LEN};
use crate::digest::{compute_randomized_digest, randomized_digest};
use crate::error::ZkError;
use crate::keys::{parse_proof, proof_from_bytes, SnarkVerifyingKey};
use crate::verify::{fidoac_verify, verify_outcome};

verus! {

/// Largest age threshold.
pub const MAX_AGE_THRESHOLD: i32 = 255;

/// Largest two-digit reference year.
pub const MAX_REFERENCE_YEAR: i32 = 99;

/// The error, if any, that the proving inputs are rejected with. Lengths are
/// checked before ranges.
pub open spec fn prove_input_error(
    dg1_len: nat,
    nonce_len: nat,
    age_gt: i32,
    cur_year: i32,
) -> Option<ZkError> {
    if dg1_len != DG1_TD3_LEN || nonce_len != DIGEST_LEN {
        Some(ZkError::InvalidInputLength)
    } else if age_gt < 0 || age_gt > MAX_AGE_THRESHOLD || cur_year < 0 || cur_year
        > MAX_REFERENCE_YEAR {
        Some(ZkError::InvalidRange)
    } else {
        None
    }
}

/// Checks the proving inputs and builds the instance that the prover proves:
/// the data group and nonce as witness, and as statement their commitment,
/// the threshold and the year. Nothing cryptographic runs before the inputs
/// are accepted.
pub fn prepare_circuit(
    dg1: Vec<u8>,
    client_nonce: Vec<u8>,
    age_gt: i32,
    cur_year: i32,
) -> (r: Result<SHA2PreimageCircuit, ZkError>)
    ensures
        prove_input_error(dg1@.len(), client_nonce@.len(), age_gt, cur_year) matches Some(e)
            ==> r == Err::<SHA2PreimageCircuit, ZkError>(e),
        prove_input_error(dg1@.len(), client_nonce@.len(), age_gt, cur_year) is None ==> (
        r matches Ok(c) && c.wf() && c.input@ == dg1@ && c.client_nonce@ == client_nonce@
            && c.expected_hash@ == randomized_digest(dg1@, client_nonce@) && c.age_requirement
            == age_gt && c.cur_year == cur_year),
{
    if dg1.len() != DG1_TD3_LEN || client_nonce.len() != DIGEST_LEN {
        return Err(ZkError::InvalidInputLength);
    }
    if age_gt < 0 || age_gt > MAX_AGE_THRESHOLD || cur_year < 0 || cur_year > MAX_REFERENCE_YEAR {
        return Err(ZkError::InvalidRange);
    }
    let expected_hash = compute_randomized_digest(&dg1, &client_nonce);
    Ok(SHA2PreimageCircuit::new(dg1, expected_hash, client_nonce, age_gt as u8, cur_year as u8))
}

/// The prover's self-check: reads back the proof it produced for
/// `circuit` and verifies it against the instance's statement. Returns the
/// verdict with the proof bytes and the digest, which the caller publishes.
pub fn conclude_proof(
    vk: &SnarkVerifyingKey,
    proof_bytes: Vec<u8>,
    circuit: &SHA2PreimageCircuit,
) -> (r: Result<(bool, Vec<u8>, Vec<u8>), ZkError>)
    ensures
        proof_from_bytes(proof_bytes@) is None ==> r == Err::<(bool, Vec<u8>, Vec<u8>), ZkError>(
            ZkError::ProofDeserializationError,
        ),
        proof_from_bytes(proof_bytes@) is Some ==> match verify_outcome(
            *vk,
            proof_from_bytes(proof_bytes@).unwrap(),
            circuit.expected_hash@,
            circuit.age_requirement,
            circuit.cur_year,
        ) {
            Ok(v) => r is Ok && r.unwrap().0 == v && r.unwrap().1@ == proof_bytes@ && r.unwrap().2@
                == circuit.expected_hash@,
            Err(e) => r == Err::<(bool, Vec<u8>, Vec<u8>), ZkError>(e),
        },
{
    let proof = match parse_proof(proof_bytes.clone()) {
        Ok(p) => p,
        Err(e) => {
            return Err(e);
        },
    };
    let is_proof_valid = match fidoac_verify(
        vk,
        &proof,
        &circuit.expected_hash,
        circuit.age_requirement,
        circuit.cur_year,
    ) {
        Ok(v) => v,
        Err(e) => {
            return Err(e);
        },
    };
    let digest = circuit.expected_hash.clone();
    proof {
        assert(digest@ =~= circuit.expected_hash@);
    }
    Ok((is_proof_valid, proof_bytes, digest))
}

} // verus!
