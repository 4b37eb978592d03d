use vstd::prelude::*;
use ark_crypto_primitives::crh::sha256::Sha256;
use ark_crypto_primitives::crh::CRHScheme;

verus! {

/// The SHA-256 digest of a byte string.
pub uninterp spec fn sha256_of(data: Seq<u8>) -> Seq<u8>;

/// The session commitment: the digest of the data group's digest followed
/// by the nonce.
pub open spec fn randomized_digest(dg: Seq<u8>, nonce: Seq<u8>) -> Seq<u8> {
    sha256_of(sha256_of(dg) + nonce)
}

/// Relies on `CRHScheme::evaluate` for ark-crypto-primitives' `Sha256`,
/// which always returns `Ok` with the 32-byte SHA-256 digest of its input.
#[verifier::external_body]
fn sha256(data: &Vec<u8>) -> (r: Option<Vec<u8>>)
    ensures
        r.is_some(),
        r.unwrap()@ == sha256_of(data@),
        r.unwrap()@.len() == 32,
{
    <Sha256 as CRHScheme>::evaluate(&(), data.as_slice()).ok()
}

/// The SHA-256 digest of `data`.
pub fn sha256_digest(data: &Vec<u8>) -> (r: Vec<u8>)
    ensures
        r@ == sha256_of(data@),
        r@.len() == 32,
{
    match sha256(data) {
        Some(h) => h,
        None => Vec::new(),
    }
}

/// The session commitment `sha256(sha256(dg) ‖ nonce)`, computed outside
/// any circuit. The proof binds the data group to this value.
pub fn compute_randomized_digest(dg: &Vec<u8>, client_nonce: &Vec<u8>) -> (r: Vec<u8>)
    ensures
        r@ == randomized_digest(dg@, client_nonce@),
        r@.len() == 32,
{
    let mut randomized_dg1 = sha256_digest(dg);
    let mut nonce = client_nonce.clone();
    proof {
        assert(nonce@ =~= client_nonce@);
    }
    randomized_dg1.append(&mut nonce);
    sha256_digest(&randomized_dg1)
}

} // verus!
