use vstd::prelude::*;
use crate::bits::{bit_of, bits_of_bytes, digest_bits, le_bits, lemma_bits_determine_byte};

verus! {

/// The public-input vector of the proof relation, as plain integers: every
/// digest bit (byte 0 first, each byte least significant bit first), then
/// the reference year, then the age threshold.
pub open spec fn public_input_vector(digest: Seq<u8>, age_req: u8, cur_year: u8) -> Seq<u64> {
    bits_of_bytes(digest).map_values(|b: u8| b as u64).push(cur_year as u64).push(age_req as u64)
}

/// Builds the public-input vector for a digest, an age threshold and a
/// reference year. Prover and verifier both call this, so the order is
/// fixed in one place.
pub fn public_inputs(expected_hash: &Vec<u8>, age_req: u8, cur_year: u8) -> (r: Vec<u64>)
    requires
        8 * expected_hash@.len() + 2 <= usize::MAX,
    ensures
        r@ == public_input_vector(expected_hash@, age_req, cur_year),
{
    let bits = digest_bits(expected_hash);
    let mut out: Vec<u64> = Vec::new();
    let mut i: usize = 0;
    while i < bits.len()
        invariant
            i <= bits@.len(),
            bits@ == bits_of_bytes(expected_hash@),
            out@ == bits@.subrange(0, i as int).map_values(|b: u8| b as u64),
        decreases bits@.len() - i,
    {
        out.push(bits[i] as u64);
        assert(bits@.subrange(0, i + 1) =~= bits@.subrange(0, i as int).push(bits@[i as int]));
        i = i + 1;
    }
    assert(bits@.subrange(0, bits@.len() as int) =~= bits@);
    out.push(cur_year as u64);
    out.push(age_req as u64);
    out
}

/// The public-input vector determines the digest, the threshold and the
/// year it was built from: two different statements never share a vector.
pub proof fn lemma_public_inputs_injective(
    d1: Seq<u8>,
    t1: u8,
    y1: u8,
    d2: Seq<u8>,
    t2: u8,
    y2: u8,
)
    requires
        public_input_vector(d1, t1, y1) == public_input_vector(d2, t2, y2),
    ensures
        d1 == d2,
        t1 == t2,
        y1 == y2,
{
    let v1 = public_input_vector(d1, t1, y1);
    let v2 = public_input_vector(d2, t2, y2);
    let n: int = 8 * (d1.len() as int);
    assert(v1.len() == 8 * d1.len() + 2);
    assert(v2.len() == 8 * d2.len() + 2);
    assert(d1.len() == d2.len());
    assert(v1[n + 1] == t1 as u64);
    assert(v2[n + 1] == t2 as u64);
    assert(v1[n] == y1 as u64);
    assert(v2[n] == y2 as u64);
    assert forall|j: int| 0 <= j < d1.len() implies d1[j] == d2[j] by {
        assert forall|i: int| 0 <= i < 8 implies le_bits(d1[j])[i] == le_bits(d2[j])[i] by {
            let k = 8 * j + i;
            assert(0 <= k < n && k / 8 == j && k % 8 == i) by (nonlinear_arith)
                requires
                    0 <= j < d1.len(),
                    0 <= i < 8,
                    k == 8 * j + i,
                    n == 8 * d1.len(),
            ;
            assert(v1[k] == bit_of(d1[j], i) as u64);
            assert(v2[k] == bit_of(d2[j], i) as u64);
        }
        assert(le_bits(d1[j]) =~= le_bits(d2[j]));
        lemma_bits_determine_byte(d1[j], d2[j]);
    }
    assert(d1 =~= d2);
}

} // verus!
