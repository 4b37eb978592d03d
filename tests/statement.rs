use fidoac::{
    big_endian_get_bit, birth_year, get_mod_name, compute_randomized_digest, derive_age, digest_bits,
    little_endian_get_bit, meets_age_requirement, prepare_circuit, public_inputs, sha256_digest,
    SHA2PreimageCircuit, ZkError, DG1_TD3_LEN,
};

use ark_crypto_primitives::crh::sha256::digest::Digest;
use ark_crypto_primitives::crh::sha256::Sha256;

fn data_group(tens: u8, ones: u8) -> Vec<u8> {
    let mut dg = vec![b'<'; DG1_TD3_LEN];
    dg[62] = tens;
    dg[63] = ones;
    dg
}

#[test]
fn my_test() {
    println!("Test Print");
}

#[test]
fn little_endian_bits_of_byte() {
    assert_eq!(little_endian_get_bit(0b1000_0101), vec![1, 0, 1, 0, 0, 0, 0, 1]);
    assert_eq!(little_endian_get_bit(0), vec![0; 8]);
    assert_eq!(little_endian_get_bit(255), vec![1; 8]);
}

#[test]
fn big_endian_bits_of_byte() {
    assert_eq!(big_endian_get_bit(0b1000_0101), vec![1, 0, 0, 0, 0, 1, 0, 1]);
    assert_eq!(big_endian_get_bit(0b0000_0010), vec![0, 0, 0, 0, 0, 0, 1, 0]);
}

#[test]
fn digest_bits_byte_zero_first_lsb_first() {
    let bits = digest_bits(&vec![0x01, 0x80]);
    assert_eq!(bits, vec![1, 0, 0, 0, 0, 0, 0, 0, 0, 0, 0, 0, 0, 0, 0, 1]);
    assert!(digest_bits(&vec![]).is_empty());
}

#[test]
fn public_inputs_layout() {
    let mut digest = vec![0u8; 32];
    digest[0] = 0x03;
    digest[31] = 0x80;
    let v = public_inputs(&digest, 18, 20);
    assert_eq!(v.len(), 258);
    assert_eq!(&v[0..8], &[1, 1, 0, 0, 0, 0, 0, 0]);
    assert_eq!(v[255], 1);
    assert_eq!(v[254], 0);
    assert_eq!(v[256], 20);
    assert_eq!(v[257], 18);
}

#[test]
fn public_inputs_differ_for_different_statements() {
    let digest = vec![7u8; 32];
    let mut other = digest.clone();
    other[5] = 6;
    assert_ne!(public_inputs(&digest, 18, 20), public_inputs(&other, 18, 20));
    assert_ne!(public_inputs(&digest, 18, 20), public_inputs(&digest, 19, 20));
    assert_ne!(public_inputs(&digest, 18, 20), public_inputs(&digest, 20, 18));
}

#[test]
fn century_wraparound_when_birth_year_after_reference() {
    let dg = data_group(b'0', b'5');
    assert_eq!(birth_year(&dg), 5);
    assert_eq!(derive_age(&dg, 3), 98);
}

#[test]
fn same_century_when_birth_year_before_reference() {
    let dg = data_group(b'0', b'5');
    assert_eq!(derive_age(&dg, 10), 5);
    assert_eq!(derive_age(&dg, 5), 0);
}

#[test]
fn non_digit_birth_year_is_not_range_checked() {
    let dg = data_group(b'/', b'0');
    assert_eq!(birth_year(&dg), -10);
    assert!(!meets_age_requirement(&dg, 0, 20));
}

#[test]
fn end_to_end_birth_year_ninety() {
    let dg = data_group(b'9', b'0');
    assert_eq!(birth_year(&dg), 90);
    assert_eq!(derive_age(&dg, 20), 30);
    assert!(meets_age_requirement(&dg, 18, 20));
    assert!(!meets_age_requirement(&dg, 31, 20));
    let nonce = vec![0x11u8; 32];
    let circuit = prepare_circuit(dg.clone(), nonce.clone(), 18, 20).unwrap();
    assert_eq!(circuit.expected_hash.len(), 32);
    assert_eq!(circuit.input, dg);
    assert_eq!(circuit.client_nonce, nonce);
    assert_eq!(circuit.age_requirement, 18);
    assert_eq!(circuit.cur_year, 20);
    assert_eq!(circuit.extract_to_publicinput(), public_inputs(&circuit.expected_hash, 18, 20));
}

#[test]
fn data_group_length_boundary() {
    let nonce = vec![0u8; 32];
    assert_eq!(
        prepare_circuit(vec![b'0'; 92], nonce.clone(), 18, 20).err(),
        Some(ZkError::InvalidInputLength)
    );
    assert_eq!(
        prepare_circuit(vec![b'0'; 94], nonce.clone(), 18, 20).err(),
        Some(ZkError::InvalidInputLength)
    );
    assert!(prepare_circuit(vec![b'0'; 93], nonce, 18, 20).is_ok());
}

#[test]
fn nonce_length_checked() {
    let dg = data_group(b'9', b'0');
    assert_eq!(
        prepare_circuit(dg.clone(), vec![0u8; 31], 18, 20).err(),
        Some(ZkError::InvalidInputLength)
    );
    assert_eq!(prepare_circuit(dg, vec![], 18, 20).err(), Some(ZkError::InvalidInputLength));
}

#[test]
fn threshold_and_year_ranges_checked() {
    let dg = data_group(b'9', b'0');
    let nonce = vec![0u8; 32];
    assert_eq!(prepare_circuit(dg.clone(), nonce.clone(), 256, 20).err(), Some(ZkError::InvalidRange));
    assert_eq!(prepare_circuit(dg.clone(), nonce.clone(), -1, 20).err(), Some(ZkError::InvalidRange));
    assert_eq!(prepare_circuit(dg.clone(), nonce.clone(), 18, 100).err(), Some(ZkError::InvalidRange));
    assert_eq!(prepare_circuit(dg.clone(), nonce.clone(), 18, -1).err(), Some(ZkError::InvalidRange));
    assert!(prepare_circuit(dg.clone(), nonce.clone(), 255, 99).is_ok());
    assert_eq!(
        prepare_circuit(vec![0u8; 92], nonce, 300, 20).err(),
        Some(ZkError::InvalidInputLength)
    );
}

#[test]
fn sha256_known_vector() {
    let d = sha256_digest(&b"abc".to_vec());
    let expected: Vec<u8> = vec![
        0xba, 0x78, 0x16, 0xbf, 0x8f, 0x01, 0xcf, 0xea, 0x41, 0x41, 0x40, 0xde, 0x5d, 0xae, 0x22,
        0x23, 0xb0, 0x03, 0x61, 0xa3, 0x96, 0x17, 0x7a, 0x9c, 0xb4, 0x10, 0xff, 0x61, 0xf2, 0x00,
        0x15, 0xad,
    ];
    assert_eq!(d, expected);
}

#[test]
fn randomized_digest_hashes_digest_then_nonce() {
    let dg = data_group(b'9', b'0');
    let nonce: Vec<u8> = (0u8..32).collect();
    let mut inner = Sha256::digest(&dg).to_vec();
    inner.extend_from_slice(&nonce);
    let expected = Sha256::digest(&inner).to_vec();
    assert_eq!(compute_randomized_digest(&dg, &nonce), expected);
    let other_nonce = vec![0u8; 32];
    assert_ne!(compute_randomized_digest(&dg, &other_nonce), expected);
}

#[test]
fn keygen_instance_is_all_zero() {
    let c = SHA2PreimageCircuit::new_for_keygen_only();
    assert_eq!(c.input, vec![0u8; 93]);
    assert_eq!(c.expected_hash, vec![0u8; 32]);
    assert_eq!(c.client_nonce, vec![0u8; 32]);
    assert!(c.public_input_verification.is_empty());
    assert_eq!(c.age_requirement, 0);
    assert_eq!(c.cur_year, 0);
}

#[test]
fn module_name() {
    assert_eq!(get_mod_name(), "zkpmain");
}
