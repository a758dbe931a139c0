use std::collections::HashSet;

use sm2_co_sign_core::CoSignProtocol;
use sm2_co_sign_core::Error;
use sm2_co_sign_core::hash::kdf;

const SM2_N_BYTES: [u8; 32] = [
    0xFF, 0xFF, 0xFF, 0xFE, 0xFF, 0xFF, 0xFF, 0xFF, 0xFF, 0xFF, 0xFF, 0xFF, 0xFF, 0xFF, 0xFF,
    0xFF, 0x72, 0x03, 0xDF, 0x6B, 0x21, 0xC6, 0x05, 0x2B, 0x53, 0xBB, 0xF4, 0x09, 0x39, 0xD5,
    0x41, 0x23,
];

#[test]
fn test_nonce_uniqueness_and_spread() {
    let protocol = CoSignProtocol::new().unwrap();
    let mut seen: HashSet<Vec<u8>> = HashSet::new();
    let mut byte_sum: u64 = 0;
    let mut byte_count: u64 = 0;
    for _ in 0..1000 {
        let (k1, _q1) = protocol.sign_prepare().unwrap();
        for b in &k1 {
            byte_sum += u64::from(*b);
        }
        byte_count += k1.len() as u64;
        assert!(seen.insert(k1), "an ephemeral nonce repeated");
    }
    let mean = byte_sum / byte_count;
    assert!(mean > 110 && mean < 145, "nonce bytes are far from uniform: mean {}", mean);
}

#[test]
fn test_kdf_lengths() {
    let seed = b"kdf seed bytes";
    assert_eq!(kdf(seed, 0).len(), 0);
    assert_eq!(kdf(seed, 1).len(), 1);
    assert_eq!(kdf(seed, 32).len(), 32);
    assert_eq!(kdf(seed, 97).len(), 97);
    assert_eq!(kdf(seed, 4096).len(), 4096);
}

#[test]
fn test_kdf_first_block_is_counter_hash() {
    let seed = b"another seed";
    let stream = kdf(seed, 97);
    let mut block_input = seed.to_vec();
    block_input.extend_from_slice(&[0, 0, 0, 1]);
    let first = CoSignProtocol::sm3_hash(&block_input);
    assert_eq!(&stream[..32], first.as_slice());
    let mut second_input = seed.to_vec();
    second_input.extend_from_slice(&[0, 0, 0, 2]);
    let second = CoSignProtocol::sm3_hash(&second_input);
    assert_eq!(&stream[32..64], second.as_slice());
}

#[test]
fn test_complete_signature_trivial_vector() {
    // k1 = 1, s3 = 2, r = 1, d1 = 1, s2 = 1:
    // s1 = (1 * 2 - 1 * 1) mod n = 1, s = 1, as 32 zero-padded bytes.
    let protocol = CoSignProtocol::new().unwrap();
    let (r_out, s) = protocol
        .complete_signature(&[1], &[1], &[1], &[1], &[2])
        .unwrap();
    assert_eq!(r_out, vec![1u8]);
    let mut expected = vec![0u8; 32];
    expected[31] = 1;
    assert_eq!(s, expected);
}

#[test]
fn test_complete_signature_small_vector() {
    // k1 = 1, d1 = 2, r = 1, s2 = 3, s3 = 5:
    // s1 = (1 * 5 - 1 * 2) mod n = 3, s = 3 * 3 mod n = 9.
    let protocol = CoSignProtocol::new().unwrap();
    let (r_out, s) = protocol
        .complete_signature(&[1], &[2], &[1], &[3], &[5])
        .unwrap();
    assert_eq!(r_out, vec![1u8]);
    let mut expected = vec![0u8; 32];
    expected[31] = 9;
    assert_eq!(s, expected);
}

#[test]
fn test_complete_signature_wrap_vector() {
    // k1 * s3 = 1 and r * d1 = 3, so the subtraction wraps:
    // s = (1 + n - 3) mod n = n - 2.
    let protocol = CoSignProtocol::new().unwrap();
    let (r_out, s) = protocol
        .complete_signature(&[1], &[3], &[1], &[1], &[1])
        .unwrap();
    assert_eq!(r_out, vec![1u8]);
    let mut expected = SM2_N_BYTES.to_vec();
    expected[31] = 0x21;
    assert_eq!(s, expected);
}

#[test]
fn test_decryption_symmetry() {
    // With the whole key as the client share, the client's own T1 plays
    // the part of the peer's T2, and the round recovers the plaintext.
    let protocol = CoSignProtocol::new().unwrap();
    let d1 = protocol.generate_d1().unwrap();
    let p1 = protocol.calculate_p1(&d1).unwrap();
    let message = b"hello world";

    let ciphertext = CoSignProtocol::encrypt(&p1, message).unwrap();
    let (c1, c3, c2) = CoSignProtocol::parse_ciphertext(&ciphertext).unwrap();

    let t1 = protocol.decrypt_prepare(&d1, &c1).unwrap();
    let plaintext = protocol.complete_decryption(&t1, &c3, &c2).unwrap();
    assert_eq!(plaintext.as_slice(), message);

    let checked = protocol.complete_decryption_checked(&t1, &c3, &c2).unwrap();
    assert_eq!(checked.as_deref(), Some(message.as_slice()));
}

#[test]
fn test_checked_decryption_rejects_bad_tag() {
    let protocol = CoSignProtocol::new().unwrap();
    let d1 = protocol.generate_d1().unwrap();
    let p1 = protocol.calculate_p1(&d1).unwrap();
    let ciphertext = CoSignProtocol::encrypt(&p1, b"hello world").unwrap();
    let (c1, mut c3, c2) = CoSignProtocol::parse_ciphertext(&ciphertext).unwrap();
    c3[0] ^= 0xFF;
    let t1 = protocol.decrypt_prepare(&d1, &c1).unwrap();
    let checked = protocol.complete_decryption_checked(&t1, &c3, &c2).unwrap();
    assert!(checked.is_none());
}

#[test]
fn test_malformed_ciphertext_rejected() {
    let short = vec![0u8; 96];
    match CoSignProtocol::parse_ciphertext(&short) {
        Err(Error::InvalidParam(_)) => {}
        other => panic!("expected an invalid-parameter error, got {:?}", other),
    }
    assert!(CoSignProtocol::parse_ciphertext(&[]).is_err());
    assert!(CoSignProtocol::parse_ciphertext(&vec![4u8; 97]).is_ok());
}

#[test]
fn test_invalid_point_rejected() {
    // (1, 1) does not satisfy the curve equation.
    let protocol = CoSignProtocol::new().unwrap();
    let mut c1 = vec![0u8; 65];
    c1[0] = 0x04;
    c1[32] = 1;
    c1[64] = 1;
    match protocol.decrypt_prepare(&[7], &c1) {
        Err(Error::Crypto(_)) | Err(Error::Encoding(_)) => {}
        other => panic!("an off-curve point must be rejected, got {:?}", other),
    }

    // An out-of-field coordinate (x = p, all-ones beyond it) is also
    // rejected rather than read mod p.
    let mut big = vec![0xFFu8; 65];
    big[0] = 0x04;
    match protocol.decrypt_prepare(&[7], &big) {
        Err(Error::Crypto(_)) | Err(Error::Encoding(_)) => {}
        other => panic!("an out-of-field point must be rejected, got {:?}", other),
    }
}

#[test]
fn test_decrypt_prepare_rejects_bad_shape() {
    let protocol = CoSignProtocol::new().unwrap();
    assert!(matches!(protocol.decrypt_prepare(&[7], &[0u8; 64]), Err(Error::Encoding(_))));
    let mut no_prefix = vec![0u8; 65];
    no_prefix[0] = 0x02;
    assert!(matches!(protocol.decrypt_prepare(&[7], &no_prefix), Err(Error::Encoding(_))));
}

#[test]
fn test_share_multiple_of_order_rejected() {
    let protocol = CoSignProtocol::new().unwrap();
    match protocol.calculate_p1(&SM2_N_BYTES) {
        Err(Error::Crypto(_)) => {}
        other => panic!("a share that is a multiple of n has no commitment, got {:?}", other),
    }
}

#[test]
fn test_decrypt_short_or_unprefixed_is_none() {
    let r = CoSignProtocol::decrypt(&[7u8; 32], &[0u8; 96]).unwrap();
    assert!(r.is_none());
    let mut ct = vec![0u8; 120];
    ct[0] = 0x02;
    let r = CoSignProtocol::decrypt(&[7u8; 32], &ct).unwrap();
    assert!(r.is_none());
}
