use vstd::prelude::*;
use ark_bls12_381::Bls12_381;
use ark_groth16::{Proof, ProvingKey, VerifyingKey};
use ark_serialize::{CanonicalDeserialize, CanonicalSerialize, SerializationError, Valid};
use crate::error::ZkError;

verus! {

#[verifier::external_type_specification]
#[verifier::external_body]
pub struct ExSerializationError(SerializationError);

/// A Groth16 proving key over BLS12-381. The key is kept whole and only
/// ever handed to the pairing library; nothing here reads its points.
#[verifier::external_body]
pub struct SnarkProvingKey {
    pub key: ProvingKey<Bls12_381>,
}

/// A Groth16 verifying key over BLS12-381, kept whole.
#[verifier::external_body]
pub struct SnarkVerifyingKey {
    pub key: VerifyingKey<Bls12_381>,
}

/// A Groth16 proof over BLS12-381, kept whole.
#[verifier::external_body]
pub struct SnarkProof {
    pub proof: Proof<Bls12_381>,
}

/// The proving key that `bytes` start with in the uncompressed layout, if any.
pub uninterp spec fn proving_key_from_bytes(bytes: Seq<u8>) -> Option<SnarkProvingKey>;

/// The verifying key that `bytes` start with in the uncompressed layout, if any.
pub uninterp spec fn verifying_key_from_bytes(bytes: Seq<u8>) -> Option<SnarkVerifyingKey>;

/// The proof that `bytes` start with in the uncompressed layout, if any.
pub uninterp spec fn proof_from_bytes(bytes: Seq<u8>) -> Option<SnarkProof>;

/// The uncompressed encoding of a proving key.
pub uninterp spec fn proving_key_encoding(pk: SnarkProvingKey) -> Seq<u8>;

/// The uncompressed encoding of a verifying key.
pub uninterp spec fn verifying_key_encoding(vk: SnarkVerifyingKey) -> Seq<u8>;

/// The uncompressed encoding of a proof.
pub uninterp spec fn proof_encoding(proof: SnarkProof) -> Seq<u8>;

/// Whether every point of the verifying key is on its curve and in the
/// prime-order subgroup.
pub uninterp spec fn verifying_key_valid(vk: SnarkVerifyingKey) -> bool;

/// Relies on ark-serialize's `deserialize_uncompressed_unchecked` for
/// `ProvingKey<Bls12_381>`: what it reads depends on the bytes alone.
#[verifier::external_body]
fn decode_proving_key(bytes: &Vec<u8>) -> (r: Result<SnarkProvingKey, SerializationError>)
    ensures
        match r {
            Ok(pk) => proving_key_from_bytes(bytes@) == Some(pk),
            Err(_) => proving_key_from_bytes(bytes@) is None,
        },
{
    ProvingKey::<Bls12_381>::deserialize_uncompressed_unchecked(bytes.as_slice()).map(
        |key| SnarkProvingKey { key },
    )
}

/// Relies on ark-serialize's `deserialize_uncompressed_unchecked` for
/// `VerifyingKey<Bls12_381>`: what it reads depends on the bytes alone.
#[verifier::external_body]
fn decode_verifying_key(bytes: &Vec<u8>) -> (r: Result<SnarkVerifyingKey, SerializationError>)
    ensures
        match r {
            Ok(vk) => verifying_key_from_bytes(bytes@) == Some(vk),
            Err(_) => verifying_key_from_bytes(bytes@) is None,
        },
{
    VerifyingKey::<Bls12_381>::deserialize_uncompressed_unchecked(bytes.as_slice()).map(
        |key| SnarkVerifyingKey { key },
    )
}

/// Relies on ark-serialize's `deserialize_uncompressed_unchecked` for
/// `Proof<Bls12_381>`: what it reads depends on the bytes alone.
#[verifier::external_body]
fn decode_proof(bytes: &Vec<u8>) -> (r: Result<SnarkProof, SerializationError>)
    ensures
        match r {
            Ok(p) => proof_from_bytes(bytes@) == Some(p),
            Err(_) => proof_from_bytes(bytes@) is None,
        },
{
    Proof::<Bls12_381>::deserialize_uncompressed_unchecked(bytes.as_slice()).map(
        |proof| SnarkProof { proof },
    )
}

/// Relies on ark-serialize's `serialize_uncompressed` for
/// `ProvingKey<Bls12_381>`: writing into a `Vec<u8>` cannot fail, and the
/// unchecked reader reads the bytes back to a key with the same encoding.
#[verifier::external_body]
fn encode_proving_key(pk: &SnarkProvingKey) -> (r: Result<Vec<u8>, SerializationError>)
    ensures
        r.is_ok(),
        r.unwrap()@ == proving_key_encoding(*pk),
        proving_key_from_bytes(r.unwrap()@) is Some,
        proving_key_encoding(proving_key_from_bytes(r.unwrap()@).unwrap()) == r.unwrap()@,
{
    let mut buf = Vec::new();
    pk.key.serialize_uncompressed(&mut buf).map(|_| buf)
}

/// Relies on ark-serialize's `serialize_uncompressed` for
/// `VerifyingKey<Bls12_381>`: writing into a `Vec<u8>` cannot fail, and the
/// unchecked reader reads the bytes back to a key with the same encoding.
#[verifier::external_body]
fn encode_verifying_key(vk: &SnarkVerifyingKey) -> (r: Result<Vec<u8>, SerializationError>)
    ensures
        r.is_ok(),
        r.unwrap()@ == verifying_key_encoding(*vk),
        verifying_key_from_bytes(r.unwrap()@) is Some,
        verifying_key_encoding(verifying_key_from_bytes(r.unwrap()@).unwrap()) == r.unwrap()@,
{
    let mut buf = Vec::new();
    vk.key.serialize_uncompressed(&mut buf).map(|_| buf)
}

/// Relies on ark-serialize's `serialize_uncompressed` for
/// `Proof<Bls12_381>`: writing into a `Vec<u8>` cannot fail, and the
/// unchecked reader reads the bytes back to a proof with the same encoding.
#[verifier::external_body]
fn encode_proof(proof: &SnarkProof) -> (r: Result<Vec<u8>, SerializationError>)
    ensures
        r.is_ok(),
        r.unwrap()@ == proof_encoding(*proof),
        proof_from_bytes(r.unwrap()@) is Some,
        proof_encoding(proof_from_bytes(r.unwrap()@).unwrap()) == r.unwrap()@,
{
    let mut buf = Vec::new();
    proof.proof.serialize_uncompressed(&mut buf).map(|_| buf)
}

/// Relies on ark-serialize's `Valid::check` for `VerifyingKey<Bls12_381>`
/// (derived: every point on its curve and in the prime-order subgroup).
#[verifier::external_body]
fn check_verifying_key(vk: &SnarkVerifyingKey) -> (r: bool)
    ensures
        r == verifying_key_valid(*vk),
{
    vk.key.check().is_ok()
}

/// Whether the verifying key's points are well formed. Keys are read
/// unchecked for speed, so this is asked before a key is used.
pub fn verifying_key_is_valid(vk: &SnarkVerifyingKey) -> (r: bool)
    ensures
        r == verifying_key_valid(*vk),
{
    check_verifying_key(vk)
}

/// Reads a verifying key in the uncompressed, unchecked layout.
pub fn parse_verf_key(verf_key_raw: Vec<u8>) -> (r: Result<SnarkVerifyingKey, ZkError>)
    ensures
        match r {
            Ok(vk) => verifying_key_from_bytes(verf_key_raw@) == Some(vk),
            Err(e) => verifying_key_from_bytes(verf_key_raw@) is None && e
                == ZkError::KeyDeserializationError,
        },
{
    match decode_verifying_key(&verf_key_raw) {
        Ok(vk) => Ok(vk),
        Err(_) => Err(ZkError::KeyDeserializationError),
    }
}

/// Reads a proving key and a verifying key in the uncompressed, unchecked
/// layout.
pub fn parse_keys(prov_key_raw: Vec<u8>, verf_key_raw: Vec<u8>) -> (r: Result<
    (SnarkProvingKey, SnarkVerifyingKey),
    ZkError,
>)
    ensures
        match r {
            Ok((pk, vk)) => proving_key_from_bytes(prov_key_raw@) == Some(pk)
                && verifying_key_from_bytes(verf_key_raw@) == Some(vk),
            Err(e) => e == ZkError::KeyDeserializationError && (proving_key_from_bytes(
                prov_key_raw@,
            ) is None || verifying_key_from_bytes(verf_key_raw@) is None),
        },
{
    let pk = match decode_proving_key(&prov_key_raw) {
        Ok(pk) => pk,
        Err(_) => {
            return Err(ZkError::KeyDeserializationError);
        },
    };
    match parse_verf_key(verf_key_raw) {
        Ok(vk) => Ok((pk, vk)),
        Err(e) => Err(e),
    }
}

/// Reads a proof in the uncompressed, unchecked layout.
pub fn parse_proof(proof_raw: Vec<u8>) -> (r: Result<SnarkProof, ZkError>)
    ensures
        match r {
            Ok(p) => proof_from_bytes(proof_raw@) == Some(p),
            Err(e) => proof_from_bytes(proof_raw@) is None && e
                == ZkError::ProofDeserializationError,
        },
{
    match decode_proof(&proof_raw) {
        Ok(p) => Ok(p),
        Err(_) => Err(ZkError::ProofDeserializationError),
    }
}

/// Writes a proving key in the uncompressed layout. Reading the bytes back
/// gives a key with the same encoding.
pub fn serialize_proving_key(pk: &SnarkProvingKey) -> (r: Vec<u8>)
    ensures
        r@ == proving_key_encoding(*pk),
        proving_key_from_bytes(r@) is Some,
        proving_key_encoding(proving_key_from_bytes(r@).unwrap()) == r@,
{
    match encode_proving_key(pk) {
        Ok(b) => b,
        Err(_) => Vec::new(),
    }
}

/// Writes a verifying key in the uncompressed layout. Reading the bytes back
/// gives a key with the same encoding.
pub fn serialize_verifying_key(vk: &SnarkVerifyingKey) -> (r: Vec<u8>)
    ensures
        r@ == verifying_key_encoding(*vk),
        verifying_key_from_bytes(r@) is Some,
        verifying_key_encoding(verifying_key_from_bytes(r@).unwrap()) == r@,
{
    match encode_verifying_key(vk) {
        Ok(b) => b,
        Err(_) => Vec::new(),
    }
}

/// Writes a proof in the uncompressed layout. Reading the bytes back gives a
/// proof with the same encoding.
pub fn serialize_proof(proof: &SnarkProof) -> (r: Vec<u8>)
    ensures
        r@ == proof_encoding(*proof),
        proof_from_bytes(r@) is Some,
        proof_encoding(proof_from_bytes(r@).unwrap()) == r@,
{
    match encode_proof(proof) {
        Ok(b) => b,
        Err(_) => Vec::new(),
    }
}

} // verus!
