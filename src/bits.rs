use vstd::prelude::*;

verus! {

/// Bit `i` (0 = least significant) of `value`, as 0 or 1.
pub open spec fn bit_of(value: u8, i: int) -> u8 {
    ((value >> (i as u8)) & 1u8)
}

/// The bits of `value`, least significant first.
pub open spec fn le_bits(value: u8) -> Seq<u8> {
    Seq::new(8, |i: int| bit_of(value, i))
}

/// The bits of `value`, most significant first.
pub open spec fn be_bits(value: u8) -> Seq<u8> {
    Seq::new(8, |i: int| bit_of(value, 7 - i))
}

/// All bits of `bytes`: byte 0 first, each byte least significant bit first.
pub open spec fn bits_of_bytes(bytes: Seq<u8>) -> Seq<u8> {
    Seq::new(8 * bytes.len(), |k: int| bit_of(bytes[k / 8], k % 8))
}

proof fn lemma_mask_test(value: u8, i: u8)
    requires
        i < 8,
    ensures
        ((1u8 << i) & value > 0) == (((value >> i) & 1u8) == 1u8),
        ((128u8 >> i) & value > 0) == (((value >> (7 - i) as u8) & 1u8) == 1u8),
        ((value >> i) & 1u8) <= 1u8,
        ((value >> (7 - i) as u8) & 1u8) <= 1u8,
{
    assert(((1u8 << i) & value > 0) == (((value >> i) & 1u8) == 1u8)) by (bit_vector)
        requires
            i < 8,
    ;
    assert(((128u8 >> i) & value > 0) == (((value >> (7 - i) as u8) & 1u8) == 1u8))
        by (bit_vector)
        requires
            i < 8,
    ;
    assert(((value >> i) & 1u8) <= 1u8) by (bit_vector);
    assert(((value >> (7 - i) as u8) & 1u8) <= 1u8) by (bit_vector);
}

/// Two bytes with the same eight bits are equal.
pub proof fn lemma_bits_determine_byte(a: u8, b: u8)
    requires
        le_bits(a) == le_bits(b),
    ensures
        a == b,
{
    assert forall|i: int| 0 <= i < 8 implies bit_of(a, i) == bit_of(b, i) by {
        assert(le_bits(a)[i] == bit_of(a, i));
        assert(le_bits(b)[i] == bit_of(b, i));
        assert(le_bits(a)[i] == le_bits(b)[i]);
    }
    // The bit-vector step below sees no quantifiers: hand it each bit.
    assert(bit_of(a, 0) == bit_of(b, 0) && bit_of(a, 1) == bit_of(b, 1) && bit_of(a, 2) == bit_of(
        b,
        2,
    ) && bit_of(a, 3) == bit_of(b, 3) && bit_of(a, 4) == bit_of(b, 4) && bit_of(a, 5) == bit_of(b, 5)
        && bit_of(a, 6) == bit_of(b, 6) && bit_of(a, 7) == bit_of(b, 7));
    assert(a == b) by (bit_vector)
        requires
            (a >> 0u8) & 1u8 == (b >> 0u8) & 1u8,
            (a >> 1u8) & 1u8 == (b >> 1u8) & 1u8,
            (a >> 2u8) & 1u8 == (b >> 2u8) & 1u8,
            (a >> 3u8) & 1u8 == (b >> 3u8) & 1u8,
            (a >> 4u8) & 1u8 == (b >> 4u8) & 1u8,
            (a >> 5u8) & 1u8 == (b >> 5u8) & 1u8,
            (a >> 6u8) & 1u8 == (b >> 6u8) & 1u8,
            (a >> 7u8) & 1u8 == (b >> 7u8) & 1u8,
    ;
}

/// The eight bits of `value`, least significant first, each 0 or 1.
pub fn little_endian_get_bit(value: u8) -> (r: Vec<u8>)
    ensures
        r@ == le_bits(value),
{
    let mut return_vec: Vec<u8> = Vec::new();
    let mut i: u8 = 0;
    while i < 8
        invariant
            i <= 8,
            return_vec@.len() == i as int,
            forall|j: int| 0 <= j < i ==> return_vec@[j] == bit_of(value, j),
        decreases 8 - i,
    {
        proof {
            lemma_mask_test(value, i);
        }
        let mask: u8 = 1u8 << i;
        let bit_is_set = (mask & value) > 0;
        return_vec.push(if bit_is_set { 1u8 } else { 0u8 });
        i = i + 1;
    }
    assert(return_vec@ =~= le_bits(value));
    return_vec
}

/// The eight bits of `value`, most significant first, each 0 or 1.
pub fn big_endian_get_bit(value: u8) -> (r: Vec<u8>)
    ensures
        r@ == be_bits(value),
{
    let mut return_vec: Vec<u8> = Vec::new();
    let mut i: u8 = 0;
    while i < 8
        invariant
            i <= 8,
            return_vec@.len() == i as int,
            forall|j: int| 0 <= j < i ==> return_vec@[j] == bit_of(value, 7 - j),
        decreases 8 - i,
    {
        proof {
            lemma_mask_test(value, i);
        }
        let mask: u8 = 128u8 >> i;
        let bit_is_set = (mask & value) > 0;
        return_vec.push(if bit_is_set { 1u8 } else { 0u8 });
        i = i + 1;
    }
    assert(return_vec@ =~= be_bits(value));
    return_vec
}

/// All bits of `bytes`, byte 0 first and each byte least significant bit
/// first: the order in which a digest enters the public inputs.
pub fn digest_bits(bytes: &Vec<u8>) -> (r: Vec<u8>)
    requires
        8 * bytes@.len() <= usize::MAX,
    ensures
        r@ == bits_of_bytes(bytes@),
{
    let mut out: Vec<u8> = Vec::new();
    let mut k: usize = 0;
    while k < bytes.len()
        invariant
            k <= bytes@.len(),
            8 * bytes@.len() <= usize::MAX,
            out@.len() == 8 * k,
            forall|j: int| 0 <= j < 8 * k ==> out@[j] == bit_of(bytes@[j / 8], j % 8),
        decreases bytes@.len() - k,
    {
        let bits = little_endian_get_bit(bytes[k]);
        let mut i: usize = 0;
        while i < 8
            invariant
                k < bytes@.len(),
                i <= 8,
                bits@ == le_bits(bytes@[k as int]),
                out@.len() == 8 * k + i,
                forall|j: int| 0 <= j < 8 * k + i ==> out@[j] == bit_of(bytes@[j / 8], j % 8),
            decreases 8 - i,
        {
            out.push(bits[i]);
            assert((8 * k + i) / 8 == k as int && (8 * k + i) % 8 == i as int) by (nonlinear_arith)
                requires
                    i < 8,
            ;
            i = i + 1;
        }
        k = k + 1;
    }
    assert(out@ =~= bits_of_bytes(bytes@));
    out
}

} // verus!
