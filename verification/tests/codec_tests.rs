use libsm::sm2::ecc::EccCtx;
use num_bigint::BigUint;

use sm2_co_sign_core::CoSignProtocol;
use sm2_co_sign_core::Error;
use sm2_co_sign_core::base64_encode;
use sm2_co_sign_core::codec::decode_point;
use sm2_co_sign_core::codec::decode_scalar;
use sm2_co_sign_core::codec::encode_point;
use sm2_co_sign_core::codec::encode_scalar;

// The affine coordinates of the SM2 base point G.
const G_BYTES: [u8; 64] = [
    0x32, 0xC4, 0xAE, 0x2C, 0x1F, 0x19, 0x81, 0x19, 0x5F, 0x99, 0x04, 0x46, 0x6A, 0x39, 0xC9,
    0x94, 0x8F, 0xE3, 0x0B, 0xBF, 0xF2, 0x66, 0x0B, 0xE1, 0x71, 0x5A, 0x45, 0x89, 0x33, 0x4C,
    0x74, 0xC7, 0xBC, 0x37, 0x36, 0xA2, 0xF4, 0xF6, 0x77, 0x9C, 0x59, 0xBD, 0xCE, 0xE3, 0x6B,
    0x69, 0x21, 0x53, 0xD0, 0xA9, 0x87, 0x7C, 0xC6, 0x2A, 0x47, 0x40, 0x02, 0xDF, 0x32, 0xE5,
    0x21, 0x39, 0xF0, 0xA0,
];

#[test]
fn test_scalar_round_trip() {
    let v = BigUint::from_bytes_be(&[0xAB, 0xCD, 0x01]);
    let enc = encode_scalar(&v).unwrap();
    assert_eq!(enc.len(), 32);
    assert_eq!(&enc[..29], &[0u8; 29]);
    assert_eq!(&enc[29..], &[0xAB, 0xCD, 0x01]);
    let back = decode_scalar(&enc).unwrap();
    assert_eq!(back, v);
}

#[test]
fn test_scalar_encoding_bounds() {
    let too_big = BigUint::from_bytes_be(&[1u8; 33]);
    assert!(matches!(encode_scalar(&too_big), Err(Error::InvalidParam(_))));
    let zero = BigUint::from_bytes_be(&[]);
    assert_eq!(encode_scalar(&zero).unwrap(), vec![0u8; 32]);
    assert!(matches!(decode_scalar(&[1u8; 31]), Err(Error::Encoding(_))));
}

#[test]
fn test_point_round_trip() {
    let ecc = EccCtx::new();
    let protocol = CoSignProtocol::new().unwrap();
    let d1 = protocol.generate_d1().unwrap();
    let p1 = protocol.calculate_p1(&d1).unwrap();
    let point = decode_point(&ecc, &p1).unwrap();
    let back = encode_point(&ecc, &point).unwrap();
    assert_eq!(back, p1);
}

#[test]
fn test_point_decode_rejects_invalid() {
    let ecc = EccCtx::new();
    assert!(matches!(decode_point(&ecc, &[0u8; 63]), Err(Error::Encoding(_))));
    let mut off_curve = [0u8; 64];
    off_curve[31] = 1;
    off_curve[63] = 1;
    assert!(matches!(decode_point(&ecc, &off_curve), Err(Error::Crypto(_))));
    let out_of_field = [0xFFu8; 64];
    assert!(matches!(decode_point(&ecc, &out_of_field), Err(Error::Encoding(_))));
}

#[test]
fn test_commitment_deterministic_and_correct() {
    let protocol = CoSignProtocol::new().unwrap();
    let d1 = protocol.generate_d1().unwrap();
    let first = protocol.calculate_p1(&d1).unwrap();
    let second = protocol.calculate_p1(&d1).unwrap();
    assert_eq!(first, second);

    // d1 = 1 commits to the base point itself.
    let one = protocol.calculate_p1(&[1]).unwrap();
    assert_eq!(one.as_slice(), &G_BYTES[..]);
}

#[test]
fn test_sm3_known_vector() {
    // The published SM3 test vector for "abc".
    let digest = CoSignProtocol::sm3_hash(b"abc");
    let expected: [u8; 32] = [
        0x66, 0xC7, 0xF0, 0xF4, 0x62, 0xEE, 0xED, 0xD9, 0xD1, 0xF2, 0xD4, 0x6B, 0xDC, 0x10,
        0xE4, 0xE2, 0x41, 0x67, 0xC4, 0x87, 0x5C, 0xF2, 0xF7, 0xA2, 0x29, 0x7D, 0xA0, 0x2B,
        0x8F, 0x4B, 0xA8, 0xE0,
    ];
    assert_eq!(digest.as_slice(), &expected[..]);
}

#[test]
fn test_base64_known_vector() {
    assert_eq!(base64_encode(b"hello world"), "aGVsbG8gd29ybGQ=");
    assert_eq!(base64_encode(b""), "");
}

#[test]
fn test_generate_random_lengths() {
    assert_eq!(CoSignProtocol::generate_random(0).len(), 0);
    assert_eq!(CoSignProtocol::generate_random(32).len(), 32);
    let a = CoSignProtocol::generate_random(32);
    let b = CoSignProtocol::generate_random(32);
    assert_ne!(a, b, "two 32-byte random draws collided");
}
