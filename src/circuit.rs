use vstd::prelude::*;
use crate::age::DG1_TD3_LEN;
use crate::inputs::{public_input_vector, public_inputs};

verus! {

/// Length of a SHA-256 digest and of the session nonce.
pub const DIGEST_LEN: usize = 32;

/// One instance of the proof relation: the private witness (data group and
/// nonce) and the public statement (digest, threshold, reference year),
/// with the public-input vector that the statement gives.
pub struct SHA2PreimageCircuit {
    pub input: Vec<u8>,
    pub expected_hash: Vec<u8>,
    pub public_input_verification: Vec<u64>,
    pub client_nonce: Vec<u8>,
    pub age_requirement: u8,
    pub cur_year: u8,
}

impl SHA2PreimageCircuit {
    /// The public inputs agree with the statement.
    pub open spec fn wf(&self) -> bool {
        self.public_input_verification@ == public_input_vector(
            self.expected_hash@,
            self.age_requirement,
            self.cur_year,
        )
    }

    /// An instance for the given witness and statement.
    pub fn new(
        input: Vec<u8>,
        expected_hash: Vec<u8>,
        client_nonce: Vec<u8>,
        age_req: u8,
        cur_year: u8,
    ) -> (r: Self)
        requires
            8 * expected_hash@.len() + 2 <= usize::MAX,
        ensures
            r.wf(),
            r.input@ == input@,
            r.expected_hash@ == expected_hash@,
            r.client_nonce@ == client_nonce@,
            r.age_requirement == age_req,
            r.cur_year == cur_year,
    {
        let public_input_verification = public_inputs(&expected_hash, age_req, cur_year);
        SHA2PreimageCircuit {
            input: input,
            expected_hash: expected_hash,
            public_input_verification: public_input_verification,
            client_nonce: client_nonce,
            age_requirement: age_req,
            cur_year: cur_year,
        }
    }

    /// An instance with all-zero witness and statement. The shape of the
    /// constraint system does not depend on the values, so this instance is
    /// enough for the key setup.
    pub fn new_for_keygen_only() -> (r: Self)
        ensures
            r.input@ == Seq::new(DG1_TD3_LEN as nat, |i: int| 0u8),
            r.expected_hash@ == Seq::new(DIGEST_LEN as nat, |i: int| 0u8),
            r.client_nonce@ == Seq::new(DIGEST_LEN as nat, |i: int| 0u8),
            r.public_input_verification@.len() == 0,
            r.age_requirement == 0,
            r.cur_year == 0,
    {
        let input = zeros(DG1_TD3_LEN);
        let expected_hash = zeros(DIGEST_LEN);
        let client_nonce = zeros(DIGEST_LEN);
        SHA2PreimageCircuit {
            input: input,
            expected_hash: expected_hash,
            public_input_verification: Vec::new(),
            client_nonce: client_nonce,
            age_requirement: 0,
            cur_year: 0,
        }
    }

    /// The public-input vector of this instance.
    pub fn extract_to_publicinput(&self) -> (r: Vec<u64>)
        ensures
            r@ == self.public_input_verification@,
    {
        self.public_input_verification.clone()
    }
}

/// Name of the module that holds the proof relation.
pub fn get_mod_name() -> (r: String)
    ensures
        r@ == "zkpmain"@,
{
    "zkpmain".to_owned()
}

/// `n` zero bytes.
pub fn zeros(n: usize) -> (r: Vec<u8>)
    ensures
        r@ == Seq::new(n as nat, |i: int| 0u8),
{
    let mut v: Vec<u8> = Vec::new();
    let mut i: usize = 0;
    while i < n
        invariant
            i <= n,
            v@ == Seq::new(i as nat, |j: int| 0u8),
        decreases n - i,
    {
        v.push(0u8);
        i = i + 1;
        assert(v@ =~= Seq::new(i as nat, |j: int| 0u8));
    }
    v
}

} // verus!
